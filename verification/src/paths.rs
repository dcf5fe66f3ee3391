//! Paths that the helper, the installer, the uninstaller and the GUI agree on,
//! and the little path arithmetic that they need.
//!
//! The paths carry no brand: the helper is a singleton on the machine and
//! serves every GUI of the family.
use crate::text::{chars_of, copy_texts, same_text, texts};
use vstd::prelude::*;

pub mod linux;
pub mod macos;
pub mod windows;

verus! {

/// The system that the helper runs on.
#[derive(Debug, Clone, Copy, PartialEq, Eq, Structural)]
pub enum Platform {
    MacOs,
    Linux,
    Windows,
}

/// A Unix path without what names no component at its end: separators after
/// the first character, and `.` after a separator.
pub open spec fn without_trailing(p: Seq<char>) -> Seq<char>
    decreases p.len(),
{
    if p.len() > 1 && (p.last() == '/' || (p.last() == '.' && p[p.len() - 2] == '/')) {
        without_trailing(p.drop_last())
    } else {
        p
    }
}

/// Where the last separator of `p` stands; -1 if there is none.
pub open spec fn last_slash(p: Seq<char>) -> int
    decreases p.len(),
{
    if p.len() == 0 {
        -1
    } else if p.last() == '/' {
        p.len() - 1
    } else {
        last_slash(p.drop_last())
    }
}

/// A Unix path without its last component; nothing for the root and for the
/// empty path.
pub open spec fn parent_of(path: Seq<char>) -> Option<Seq<char>> {
    let p = without_trailing(path);
    let i = last_slash(p);
    if p.len() == 0 || p == seq!['/'] {
        None
    } else if i < 0 {
        Some(Seq::empty())
    } else if i == 0 {
        Some(seq!['/'])
    } else {
        Some(without_trailing(p.take(i)))
    }
}

/// A Unix path below a directory: an absolute path replaces the directory, and
/// a separator goes between the two unless the directory is empty or has one.
pub open spec fn joined_path(dir: Seq<char>, path: Seq<char>) -> Seq<char> {
    if path.len() > 0 && path[0] == '/' {
        path
    } else if dir.len() == 0 || dir.last() == '/' {
        dir + path
    } else {
        dir + seq!['/'] + path
    }
}

/// Where the first separator of `p` stands; the length of `p` if there is none.
pub open spec fn component_end(p: Seq<char>) -> int
    decreases p.len(),
{
    if p.len() == 0 || p[0] == '/' {
        0
    } else {
        1 + component_end(p.drop_first())
    }
}

/// What stands between the separators of `p`, empty runs included.
pub open spec fn components(p: Seq<char>) -> Seq<Seq<char>>
    decreases p.len(),
{
    let end = component_end(p);
    if 0 <= end < p.len() {
        seq![p.take(end)] + components(p.skip(end + 1))
    } else {
        seq![p]
    }
}

/// Whether a path starts at the root.
pub open spec fn is_absolute(p: Seq<char>) -> bool {
    p.len() > 0 && p[0] == '/'
}

/// Where a component leads from the place `at`: `..` goes up and stays at the
/// root, an empty component and `.` stay, and every other goes down. Above where
/// a path that is not absolute begins, the way up is kept as `..`.
pub open spec fn component_step(absolute: bool, at: Seq<Seq<char>>, component: Seq<char>) -> Seq<
    Seq<char>,
> {
    if component.len() == 0 || component == "."@ {
        at
    } else if component != ".."@ {
        at.push(component)
    } else if at.len() > 0 && at.last() != ".."@ {
        at.drop_last()
    } else if absolute {
        at
    } else {
        at.push(component)
    }
}

/// Where `components` lead from the place `at`, one after the other.
pub open spec fn walk(
    absolute: bool,
    at: Seq<Seq<char>>,
    components: Seq<Seq<char>>,
) -> Seq<Seq<char>>
    decreases components.len(),
{
    if components.len() == 0 {
        at
    } else {
        walk(absolute, component_step(absolute, at, components[0]), components.drop_first())
    }
}

/// The place that a path names: its components without those that lead nowhere
/// and those that `..` takes back.
pub open spec fn resolved(p: Seq<char>) -> Seq<Seq<char>> {
    walk(is_absolute(p), Seq::empty(), components(p))
}

/// Whether the place `place` is `dir` or below it.
pub open spec fn is_below(dir: Seq<Seq<char>>, place: Seq<Seq<char>>) -> bool {
    &&& dir.len() <= place.len()
    &&& place.take(dir.len() as int) == dir
    &&& forall|i: int| dir.len() <= i < place.len() ==> #[trigger] place[i] != ".."@
}

/// Whether a name below a directory names a place in it: it is not absolute, and
/// it does not lead out of the directory by `..`.
pub open spec fn stays_inside(dir: Seq<char>, file: Seq<char>) -> bool {
    &&& !is_absolute(file)
    &&& is_below(resolved(dir), walk(is_absolute(dir), resolved(dir), components(file)))
}

/// The mihomo binary for a helper that runs from `current_exe`: next to it, or
/// next to where the helper is installed if that is not known.
pub open spec fn mihomo_path(platform: Platform, current_exe: Option<Seq<char>>) -> Seq<char> {
    match platform {
        Platform::MacOs => {
            let me = if current_exe is Some {
                current_exe->0
            } else {
                macos::HELPER_BINARY@
            };
            match parent_of(me) {
                Some(dir) => joined_path(dir, "sc-mihomo"@),
                None => macos::MIHOMO_BINARY@,
            }
        },
        Platform::Linux => {
            let me = if current_exe is Some {
                current_exe->0
            } else {
                linux::HELPER_BINARY@
            };
            match parent_of(me) {
                Some(dir) => joined_path(dir, "sc-mihomo"@),
                None => linux::MIHOMO_BINARY@,
            }
        },
        Platform::Windows => windows::MIHOMO_BINARY@,
    }
}

/// Where the helper listens: at the override if there is one, else at the
/// platform's own place.
pub open spec fn socket_path_of(platform: Platform, override_path: Option<Seq<char>>) -> Seq<char> {
    match override_path {
        Some(p) => p,
        None => match platform {
            Platform::MacOs => macos::SOCKET_PATH@,
            Platform::Linux => linux::SOCKET_PATH@,
            Platform::Windows => windows::PIPE_NAME@,
        },
    }
}

/// How many characters of `v[..len]` stand before what names no component.
fn trailing_cut(v: &Vec<char>, len: usize) -> (r: usize)
    requires
        len <= v@.len(),
    ensures
        r <= len,
        v@.take(r as int) == without_trailing(v@.take(len as int)),
{
    let mut n: usize = len;
    while n > 1 && (v[n - 1] == '/' || (v[n - 1] == '.' && v[n - 2] == '/'))
        invariant
            n <= len <= v@.len(),
            without_trailing(v@.take(n as int)) == without_trailing(v@.take(len as int)),
        decreases n,
    {
        assert(v@.take(n as int).drop_last() == v@.take(n - 1));
        n = n - 1;
    }
    n
}

/// A Unix path without its last component.
pub fn parent(path: &str) -> (r: Option<String>)
    ensures
        r is Some <==> parent_of(path@) is Some,
        r matches Some(dir) ==> parent_of(path@) == Some(dir@),
{
    let v: Vec<char> = chars_of(path);
    assert(v@.take(v@.len() as int) == v@);
    let n: usize = trailing_cut(&v, v.len());
    let ghost p = v@.take(n as int);
    if n == 0 {
        return None;
    }
    if n == 1 && v[0] == '/' {
        assert(p == seq!['/']);
        return None;
    }
    assert(p != seq!['/']) by {
        if p == seq!['/'] {
            assert(p[0] == '/' && p.len() == 1);
        }
    }
    let mut i: usize = n;
    while i > 0 && v[i - 1] != '/'
        invariant
            i <= n <= v@.len(),
            p == v@.take(n as int),
            last_slash(p) == last_slash(v@.take(i as int)),
        decreases i,
    {
        assert(v@.take(i as int).drop_last() == v@.take(i - 1));
        i = i - 1;
    }
    if i == 0 {
        return Some(String::new());
    }
    assert(last_slash(p) == i - 1);
    if i == 1 {
        let mut root: String = String::new();
        root.push('/');
        assert(root@ == seq!['/']);
        return Some(root);
    }
    let m: usize = trailing_cut(&v, i - 1);
    assert(p.take(i - 1) == v@.take(i - 1));
    assert(path@.subrange(0, m as int) == v@.take(m as int));
    Some(path.substring_char(0, m).to_owned())
}

/// A Unix path below a directory.
pub fn join(dir: &str, path: &str) -> (r: String)
    ensures
        r@ == joined_path(dir@, path@),
{
    let d: Vec<char> = chars_of(dir);
    if path.unicode_len() > 0 && path.get_char(0) == '/' {
        return path.to_owned();
    }
    let mut r: String = dir.to_owned();
    if d.len() > 0 && d[d.len() - 1] != '/' {
        r.push('/');
    }
    r.append(path);
    r
}

/// What stands between the separators of `path`, empty runs included.
fn components_of(path: &str) -> (r: Vec<String>)
    ensures
        texts(r@) == components(path@),
{
    let v: Vec<char> = chars_of(path);
    let mut out: Vec<String> = Vec::new();
    let mut start: usize = 0;
    assert(path@.skip(0) == path@);
    assert(texts(out@) + components(path@) == components(path@));
    loop
        invariant
            v@ == path@,
            start <= v.len(),
            texts(out@) + components(path@.skip(start as int)) == components(path@),
        decreases v.len() - start,
    {
        let ghost rest = path@.skip(start as int);
        let ghost before = texts(out@);
        let mut end: usize = start;
        while end < v.len() && v[end] != '/'
            invariant
                v@ == path@,
                start <= end <= v.len(),
                rest == path@.skip(start as int),
                component_end(rest) == end - start + component_end(path@.skip(end as int)),
            decreases v.len() - end,
        {
            assert(path@.skip(end as int).drop_first() == path@.skip(end + 1));
            end = end + 1;
        }
        assert(rest.take(end - start) == path@.subrange(start as int, end as int));
        out.push(path.substring_char(start, end).to_owned());
        assert(texts(out@) == before.push(rest.take(end - start)));
        if end == v.len() {
            assert(rest.take(end - start) == rest);
            assert(texts(out@) == before + components(rest));
            return out;
        }
        assert(rest.skip(end - start + 1) == path@.skip(end + 1));
        assert(texts(out@) + components(path@.skip(end + 1)) == before + components(rest));
        start = end + 1;
    }
}

/// Goes on from the place `at` by the components of `path`.
fn walk_on(absolute: bool, at: &mut Vec<String>, path: &str)
    ensures
        texts(final(at)@) == walk(absolute, texts(old(at)@), components(path@)),
{
    let parts: Vec<String> = components_of(path);
    let ghost all = texts(parts@);
    let mut i: usize = 0;
    assert(all.skip(0) == all);
    while i < parts.len()
        invariant
            i <= parts.len(),
            all == texts(parts@),
            walk(absolute, texts(at@), all.skip(i as int)) == walk(
                absolute,
                texts(old(at)@),
                all,
            ),
        decreases parts.len() - i,
    {
        let part: &str = parts[i].as_str();
        let ghost before = texts(at@);
        assert(all.skip(i as int)[0] == part@);
        assert(all.skip(i as int).drop_first() == all.skip(i + 1));
        if part.unicode_len() > 0 && !same_text(part, ".") {
            let up: bool = same_text(part, "..");
            let n: usize = at.len();
            if up && n > 0 && !same_text(at[n - 1].as_str(), "..") {
                at.pop();
                assert(texts(at@) == before.drop_last());
            } else if !(up && absolute) {
                at.push(part.to_owned());
                assert(texts(at@) == before.push(part@));
            }
        }
        assert(texts(at@) == component_step(absolute, before, part@));
        i = i + 1;
    }
    assert(all.skip(i as int) == Seq::<Seq<char>>::empty());
}

/// Whether the place `place` is `dir` or below it.
fn below(dir: &Vec<String>, place: &Vec<String>) -> (r: bool)
    ensures
        r == is_below(texts(dir@), texts(place@)),
{
    let ghost d = texts(dir@);
    let ghost p = texts(place@);
    if dir.len() > place.len() {
        return false;
    }
    let mut i: usize = 0;
    while i < dir.len()
        invariant
            i <= dir.len() <= place.len(),
            d == texts(dir@),
            p == texts(place@),
            forall|j: int| 0 <= j < i ==> #[trigger] p[j] == d[j],
        decreases dir.len() - i,
    {
        if !same_text(dir[i].as_str(), place[i].as_str()) {
            assert(p.take(d.len() as int)[i as int] != d[i as int]);
            return false;
        }
        i = i + 1;
    }
    assert(p.take(d.len() as int) == d);
    while i < place.len()
        invariant
            dir.len() <= i <= place.len(),
            d == texts(dir@),
            p == texts(place@),
            forall|j: int| d.len() <= j < i ==> #[trigger] p[j] != ".."@,
        decreases place.len() - i,
    {
        if same_text(place[i].as_str(), "..") {
            assert(p[i as int] == ".."@);
            return false;
        }
        i = i + 1;
    }
    true
}

fn starts_at_root(path: &str) -> (r: bool)
    ensures
        r == is_absolute(path@),
{
    path.unicode_len() > 0 && path.get_char(0) == '/'
}

/// Whether a name below a directory names a place in it.
pub fn names_inside(dir: &str, file: &str) -> (r: bool)
    ensures
        r == stays_inside(dir@, file@),
{
    if starts_at_root(file) {
        return false;
    }
    let absolute: bool = starts_at_root(dir);
    let mut home: Vec<String> = Vec::new();
    assert(texts(home@) == Seq::<Seq<char>>::empty());
    walk_on(absolute, &mut home, dir);
    let mut place: Vec<String> = copy_texts(&home);
    walk_on(absolute, &mut place, file);
    below(&home, &place)
}

/// The mihomo binary that belongs to the running helper. It stands next to the
/// helper's own executable; no request names it.
pub fn resolve_mihomo_path(platform: Platform, current_exe: Option<String>) -> (r: String)
    ensures
        r@ == mihomo_path(
            platform,
            match current_exe {
                Some(exe) => Some(exe@),
                None => None,
            },
        ),
{
    match platform {
        Platform::MacOs => {
            let me: String = match current_exe {
                Some(exe) => exe,
                None => macos::HELPER_BINARY.to_owned(),
            };
            match parent(me.as_str()) {
                Some(dir) => join(dir.as_str(), "sc-mihomo"),
                None => macos::MIHOMO_BINARY.to_owned(),
            }
        },
        Platform::Linux => {
            let me: String = match current_exe {
                Some(exe) => exe,
                None => linux::HELPER_BINARY.to_owned(),
            };
            match parent(me.as_str()) {
                Some(dir) => join(dir.as_str(), "sc-mihomo"),
                None => linux::MIHOMO_BINARY.to_owned(),
            }
        },
        Platform::Windows => windows::MIHOMO_BINARY.to_owned(),
    }
}

/// Where the helper listens. `override_path` comes from the environment.
pub fn socket_path(platform: Platform, override_path: Option<String>) -> (r: String)
    ensures
        r@ == socket_path_of(
            platform,
            match override_path {
                Some(p) => Some(p@),
                None => None,
            },
        ),
{
    match override_path {
        Some(p) => p,
        None => match platform {
            Platform::MacOs => macos::SOCKET_PATH.to_owned(),
            Platform::Linux => linux::SOCKET_PATH.to_owned(),
            Platform::Windows => windows::PIPE_NAME.to_owned(),
        },
    }
}

/// The last separator before a name stands where the name begins.
pub proof fn lemma_last_slash(dir: Seq<char>, name: Seq<char>)
    requires
        forall|i: int| 0 <= i < name.len() ==> name[i] != '/',
    ensures
        last_slash(dir + seq!['/'] + name) == dir.len(),
    decreases name.len(),
{
    let p = dir + seq!['/'] + name;
    if name.len() > 0 {
        assert(p.last() == name.last());
        assert(p.drop_last() == dir + seq!['/'] + name.drop_last());
        lemma_last_slash(dir, name.drop_last());
    } else {
        assert(p.last() == '/');
    }
}

/// Components are walked one list after the other.
pub proof fn lemma_walk_append(
    absolute: bool,
    at: Seq<Seq<char>>,
    a: Seq<Seq<char>>,
    b: Seq<Seq<char>>,
)
    ensures
        walk(absolute, at, a + b) == walk(absolute, walk(absolute, at, a), b),
    decreases a.len(),
{
    if a.len() == 0 {
        assert(a + b == b);
    } else {
        assert((a + b).drop_first() == a.drop_first() + b);
        lemma_walk_append(absolute, component_step(absolute, at, a[0]), a.drop_first(), b);
    }
}

/// Where a component ends before a separator, and where the rest goes on.
proof fn lemma_component_end(p: Seq<char>, q: Seq<char>)
    ensures
        0 <= component_end(p) <= p.len(),
        component_end(p + seq!['/'] + q) == component_end(p),
    decreases p.len(),
{
    let whole = p + seq!['/'] + q;
    if p.len() > 0 && p[0] != '/' {
        lemma_component_end(p.drop_first(), q);
        assert(whole.drop_first() == p.drop_first() + seq!['/'] + q);
    }
}

/// A separator parts the components before it from those behind it.
pub proof fn lemma_components_append(p: Seq<char>, q: Seq<char>)
    ensures
        components(p + seq!['/'] + q) == components(p) + components(q),
    decreases p.len(),
{
    let whole = p + seq!['/'] + q;
    let end = component_end(p);
    lemma_component_end(p, q);
    assert(whole.take(end) == p.take(end));
    if end < p.len() {
        assert(whole.skip(end + 1) == p.skip(end + 1) + seq!['/'] + q);
        lemma_components_append(p.skip(end + 1), q);
        assert(components(whole) =~= seq![p.take(end)] + (components(p.skip(end + 1))
            + components(q)));
        assert(components(whole) =~= components(p) + components(q));
    } else {
        assert(p.take(end) == p);
        assert(whole.skip(end + 1) == q);
        assert(components(p) == seq![p]);
    }
}

/// A separator at the end of a path leads nowhere.
proof fn lemma_trailing_separator(p: Seq<char>)
    ensures
        resolved(p + seq!['/']) == if p.len() == 0 {
            Seq::empty()
        } else {
            resolved(p)
        },
{
    let none = Seq::<char>::empty();
    let absolute = is_absolute(p + seq!['/']);
    assert(p + seq!['/'] + none == p + seq!['/']);
    lemma_components_append(p, none);
    assert(components(none) == seq![none]);
    lemma_walk_append(absolute, Seq::empty(), components(p), seq![none]);
    let at = walk(absolute, Seq::empty(), components(p));
    assert(seq![none].drop_first() == Seq::<Seq<char>>::empty());
    assert(walk(absolute, component_step(absolute, at, none), Seq::empty()) == at);
    if p.len() == 0 {
        assert(components(p) == seq![p]);
        assert(seq![p].drop_first() == Seq::<Seq<char>>::empty());
        assert(walk(absolute, component_step(absolute, Seq::empty(), p), Seq::empty())
            == Seq::<Seq<char>>::empty());
    }
}

/// A path below a directory leads where its name leads from the directory.
pub proof fn lemma_joined_resolves(dir: Seq<char>, file: Seq<char>)
    requires
        !is_absolute(file),
    ensures
        resolved(joined_path(dir, file)) == walk(
            is_absolute(dir),
            resolved(dir),
            components(file),
        ),
{
    let none = Seq::<Seq<char>>::empty();
    if dir.len() == 0 {
        assert(dir + file == file);
        assert(components(dir) == seq![dir]);
        assert(seq![dir].drop_first() == none);
        assert(walk(false, component_step(false, none, dir), none) == none);
    } else if dir.last() == '/' {
        let front = dir.drop_last();
        assert(front + seq!['/'] == dir);
        lemma_components_append(front, file);
        lemma_walk_append(is_absolute(dir), none, components(front), components(file));
        lemma_trailing_separator(front);
        if front.len() == 0 {
            assert(components(front) == seq![front]);
            assert(seq![front].drop_first() == none);
            assert(walk(true, component_step(true, none, front), none) == none);
        }
    } else {
        lemma_components_append(dir, file);
        lemma_walk_append(is_absolute(dir), none, components(dir), components(file));
    }
}

/// A name that stays inside a directory never replaces it: the path is the
/// directory, a separator unless the directory is empty or ends in one, and the
/// name. What it names is in the directory.
pub proof fn law_inside_is_below(dir: Seq<char>, file: Seq<char>)
    requires
        stays_inside(dir, file),
    ensures
        joined_path(dir, file) == if dir.len() == 0 || dir.last() == '/' {
            dir + file
        } else {
            dir + seq!['/'] + file
        },
        is_below(resolved(dir), resolved(joined_path(dir, file))),
{
    lemma_joined_resolves(dir, file);
}

/// No more is refused than has to be: a name that is not absolute stays inside
/// exactly if the path that it makes with the directory names a place in it.
pub proof fn law_only_leading_out_is_refused(dir: Seq<char>, file: Seq<char>)
    requires
        !is_absolute(file),
    ensures
        stays_inside(dir, file) <==> is_below(resolved(dir), resolved(joined_path(dir, file))),
{
    lemma_joined_resolves(dir, file);
}

proof fn lemma_walk_down(
    absolute: bool,
    dir: Seq<Seq<char>>,
    at: Seq<Seq<char>>,
    parts: Seq<Seq<char>>,
)
    requires
        is_below(dir, at),
        !parts.contains(".."@),
    ensures
        is_below(dir, walk(absolute, at, parts)),
    decreases parts.len(),
{
    if parts.len() > 0 {
        let next = component_step(absolute, at, parts[0]);
        assert(parts[0] != ".."@);
        assert(next.take(dir.len() as int) == at.take(dir.len() as int));
        let rest = parts.drop_first();
        assert forall|i: int| 0 <= i < rest.len() implies rest[i] != ".."@ by {
            assert(rest[i] == parts[i + 1]);
        }
        lemma_walk_down(absolute, dir, next, rest);
    }
}

/// A name without a way up stays inside every directory.
pub proof fn law_plain_names_stay_inside(dir: Seq<char>, file: Seq<char>)
    requires
        !is_absolute(file),
        !components(file).contains(".."@),
    ensures
        stays_inside(dir, file),
{
    let home = resolved(dir);
    assert(home.take(home.len() as int) == home);
    lemma_walk_down(is_absolute(dir), home, home, components(file));
}

/// The mihomo binary stands in the directory of the helper's own executable,
/// whatever the executable is called there.
pub proof fn law_mihomo_is_a_sibling(platform: Platform, dir: Seq<char>, name: Seq<char>)
    requires
        platform != Platform::Windows,
        dir.len() > 0 ==> dir.last() != '/',
        without_trailing(dir) == dir,
        name.len() > 0,
        name != seq!['.'],
        forall|i: int| 0 <= i < name.len() ==> name[i] != '/',
    ensures
        mihomo_path(platform, Some(dir + seq!['/'] + name)) == dir + seq!['/'] + "sc-mihomo"@,
{
    let p = dir + seq!['/'] + name;
    assert(p.last() == name.last());
    if name.len() > 1 {
        assert(p[p.len() - 2] == name[name.len() - 2]);
    } else {
        assert(name[0] != '.') by {
            if name[0] == '.' {
                assert(name == seq!['.']);
            }
        }
    }
    assert(without_trailing(p) == p);
    lemma_last_slash(dir, name);
    assert(p.take(dir.len() as int) == dir);
    assert(p.len() > 1);
    reveal_strlit("sc-mihomo");
    assert("sc-mihomo"@[0] == 's');
}

} // verus!
