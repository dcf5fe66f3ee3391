//! Laws of paths.
use crate::paths::{
    components, is_absolute, is_below, joined_path, last_slash, lemma_components_append,
    lemma_joined_resolves, lemma_last_slash, lemma_walk_append, mihomo_path, parent_of, resolved,
    socket_path_of, stays_inside, walk, without_trailing, Platform,
};
use vstd::prelude::*;

verus! {

/// Whether `name` is one component: it holds no separator.
pub open spec fn is_component(name: Seq<char>) -> bool {
    !name.contains('/')
}

/// Whether `name` is one component that names something.
pub open spec fn is_name(name: Seq<char>) -> bool {
    is_component(name) && name.len() > 0 && name != seq!['.']
}

/// A path below a directory is the directory, one separator and the path, whether
/// or not the separator is written; below no directory it is the path alone, and
/// an absolute path stands for itself.
pub proof fn law_join(dir: Seq<char>, file: Seq<char>, rooted: Seq<char>)
    requires
        file.len() > 0 ==> file[0] != '/',
        rooted.len() > 0,
        rooted[0] == '/',
    ensures
        dir.len() > 0 && dir.last() != '/' ==> joined_path(dir, file) == dir + seq!['/'] + file,
        joined_path(dir + seq!['/'], file) == dir + seq!['/'] + file,
        joined_path(Seq::empty(), file) == file,
        joined_path(dir, rooted) == rooted,
{
    assert(Seq::<char>::empty() + file == file);
}

proof fn lemma_name_is_kept(before: Seq<char>, name: Seq<char>)
    requires
        is_name(name),
    ensures
        without_trailing(before + seq!['/'] + name) == before + seq!['/'] + name,
        last_slash(before + seq!['/'] + name) == before.len(),
        (before + seq!['/'] + name).take(before.len() as int) == before,
        before + seq!['/'] + name != seq!['/'],
{
    let p = before + seq!['/'] + name;
    assert forall|i: int| 0 <= i < name.len() implies name[i] != '/' by {
        assert(name.contains(name[i]));
    }
    assert(p.last() == name.last());
    if name.len() > 1 {
        assert(p[p.len() - 2] == name[name.len() - 2]);
    } else {
        assert(name[0] != '.') by {
            if name[0] == '.' {
                assert(name == seq!['.']);
            }
        }
    }
    lemma_last_slash(before, name);
    assert(p.take(before.len() as int) == before);
    assert(p.len() > 1);
    assert(p != seq!['/']) by {
        if p == seq!['/'] {
            assert(p.len() == seq!['/'].len());
        }
    }
}

proof fn lemma_trailing_junk(p: Seq<char>)
    ensures
        p.len() > 0 ==> without_trailing(p + seq!['/']) == without_trailing(p),
        p.len() > 0 ==> without_trailing(p + seq!['/', '.']) == without_trailing(p),
        p.len() == 0 ==> without_trailing(p + seq!['/']) == seq!['/'],
        p.len() == 0 ==> without_trailing(p + seq!['/', '.']) == seq!['/'],
{
    let a = p + seq!['/'];
    let b = p + seq!['/', '.'];
    assert(a.drop_last() == p);
    assert(b.drop_last() == a);
    assert(b[b.len() - 2] == '/');
    if p.len() == 0 {
        assert(a == seq!['/']);
    }
}

proof fn lemma_no_slash(name: Seq<char>)
    requires
        is_component(name),
    ensures
        last_slash(name) == -1,
    decreases name.len(),
{
    if name.len() > 0 {
        assert(name.contains(name.last()));
        let rest = name.drop_last();
        assert forall|i: int| 0 <= i < rest.len() implies rest[i] != '/' by {
            assert(name.contains(name[i]));
        }
        lemma_no_slash(rest);
    }
}

/// The parent of a name below a directory is the directory; what names nothing,
/// a doubled separator or `.`, changes no parent, at the end or before the name.
/// A name alone has the empty path for its parent, a name below the root has the
/// root, and the root and the empty path have none.
pub proof fn law_parent(dir: Seq<char>, name: Seq<char>)
    requires
        is_name(name),
    ensures
        parent_of(Seq::empty()) == None::<Seq<char>>,
        parent_of(seq!['/']) == None::<Seq<char>>,
        parent_of(name) == Some(Seq::<char>::empty()),
        parent_of(seq!['/'] + name) == Some(seq!['/']),
        dir.len() > 0 && dir.last() != '/' && !(dir.len() > 1 && dir.last() == '.'
            && dir[dir.len() - 2] == '/') ==> parent_of(dir + seq!['/'] + name) == Some(dir),
        parent_of(dir + seq!['/', '/'] + name) == parent_of(dir + seq!['/'] + name),
        parent_of(dir + seq!['/', '.', '/'] + name) == parent_of(dir + seq!['/'] + name),
        dir.len() > 0 ==> parent_of(dir + seq!['/']) == parent_of(dir),
        dir.len() > 0 ==> parent_of(dir + seq!['/', '.']) == parent_of(dir),
{
    let none = Seq::<char>::empty();
    assert(without_trailing(none) == none);
    assert(without_trailing(seq!['/']) == seq!['/']);
    lemma_no_slash(name);
    assert(without_trailing(name) == name) by {
        if name.len() > 1 {
            assert(name.contains(name.last()) && name.contains(name[name.len() - 2]));
        }
    }
    assert(name != seq!['/']) by {
        if name == seq!['/'] {
            assert(name[0] == '/');
            assert(name.contains(name[0]));
        }
    }
    assert(none + seq!['/'] + name == seq!['/'] + name);
    lemma_name_is_kept(none, name);
    lemma_name_is_kept(dir, name);
    assert(without_trailing(dir + seq!['/'] + name) == dir + seq!['/'] + name);
    assert(dir + seq!['/', '/'] + name == (dir + seq!['/']) + seq!['/'] + name);
    lemma_name_is_kept(dir + seq!['/'], name);
    assert(dir + seq!['/', '.', '/'] + name == (dir + seq!['/', '.']) + seq!['/'] + name);
    lemma_name_is_kept(dir + seq!['/', '.'], name);
    lemma_trailing_junk(dir);
}

/// The mihomo binary stands in the parent directory of the helper's executable,
/// wherever that is, and where it is installed if there is no such directory. An
/// executable that is not known is taken to be the installed one; on Windows the
/// executable is not asked.
pub proof fn law_mihomo_next_to_the_helper(exe: Seq<char>, other: Option<Seq<char>>)
    ensures
        parent_of(exe) matches Some(dir) ==> mihomo_path(Platform::MacOs, Some(exe))
            == joined_path(dir, "sc-mihomo"@) && mihomo_path(Platform::Linux, Some(exe))
            == joined_path(dir, "sc-mihomo"@),
        parent_of(exe) is None ==> mihomo_path(Platform::MacOs, Some(exe))
            == "/Library/PrivilegedHelperTools/com.scloud.helper/sc-mihomo"@ && mihomo_path(
            Platform::Linux,
            Some(exe),
        ) == "/usr/lib/sc-helper/sc-mihomo"@,
        mihomo_path(Platform::MacOs, None) == mihomo_path(
            Platform::MacOs,
            Some("/Library/PrivilegedHelperTools/com.scloud.helper/sc-helper"@),
        ),
        mihomo_path(Platform::Linux, None) == mihomo_path(
            Platform::Linux,
            Some("/usr/lib/sc-helper/sc-helper"@),
        ),
        mihomo_path(Platform::Windows, Some(exe)) == mihomo_path(Platform::Windows, other),
{
}

/// A socket path from the environment is taken as it stands on every system;
/// without one, every system has its own.
pub proof fn law_socket_override(platform: Platform, path: Seq<char>)
    ensures
        socket_path_of(platform, Some(path)) == path,
        socket_path_of(Platform::MacOs, None) == "/var/run/sc-helper.sock"@,
        socket_path_of(Platform::Linux, None) == "/run/sc-helper.sock"@,
        socket_path_of(Platform::Windows, None) == r"\\.\pipe\sc-helper"@,
{
}

proof fn lemma_one_component(name: Seq<char>)
    requires
        is_component(name),
    ensures
        components(name) == seq![name],
{
    lemma_component_is_whole(name);
}

proof fn lemma_component_is_whole(name: Seq<char>)
    requires
        is_component(name),
    ensures
        crate::paths::component_end(name) == name.len(),
    decreases name.len(),
{
    if name.len() > 0 {
        assert(name.contains(name[0]));
        let rest = name.drop_first();
        assert forall|i: int| 0 <= i < rest.len() implies rest[i] != '/' by {
            assert(name.contains(name[i + 1]));
        }
        lemma_component_is_whole(rest);
    }
}

/// What a path names is found component by component: a name goes down, `..` goes
/// up one step, an empty component and `.` stay. Above the root is the root; above
/// where a relative path begins, every further `..` is kept.
pub proof fn law_resolved(path: Seq<char>, name: Seq<char>)
    requires
        is_component(name),
    ensures
        resolved(name) == if name.len() == 0 || name == "."@ {
            Seq::<Seq<char>>::empty()
        } else {
            seq![name]
        },
        ({
            let from = resolved(path);
            let rooted = path.len() == 0 || path[0] == '/';
            resolved(path + seq!['/'] + name) == if name.len() == 0 || name == "."@ {
                from
            } else if name != ".."@ {
                from.push(name)
            } else if from.len() > 0 && from.last() != ".."@ {
                from.drop_last()
            } else if rooted {
                from
            } else {
                from.push(".."@)
            }
        }),
{
    let none = Seq::<Seq<char>>::empty();
    let nothing = Seq::<char>::empty();
    reveal_with_fuel(walk, 3);
    lemma_one_component(name);
    assert(seq![name].drop_first() == none);
    if name.len() > 0 {
        assert(name.contains(name[0]));
    }
    assert(none.push(name) == seq![name]);
    assert(!is_absolute(name));
    let whole = path + seq!['/'] + name;
    lemma_components_append(path, name);
    lemma_walk_append(is_absolute(whole), none, components(path), seq![name]);
    if path.len() == 0 {
        assert(path == nothing);
        assert(!nothing.contains('/'));
        lemma_one_component(nothing);
        assert(seq![nothing].drop_first() == none);
    }
}

/// A name stays inside a directory exactly if it is not absolute and the path of
/// the two goes on from the directory without a way up.
pub proof fn law_stays_inside(dir: Seq<char>, file: Seq<char>)
    ensures
        stays_inside(dir, file) <==> !(file.len() > 0 && file[0] == '/') && exists|
            rest: Seq<Seq<char>>,
        |
            resolved(joined_path(dir, file)) == #[trigger] (resolved(dir) + rest) && !rest.contains(
                ".."@,
            ),
{
    let home = resolved(dir);
    let place = resolved(joined_path(dir, file));
    if !is_absolute(file) {
        lemma_joined_resolves(dir, file);
        if is_below(home, place) {
            let rest = place.skip(home.len() as int);
            assert(home + rest == place);
            assert forall|i: int| 0 <= i < rest.len() implies rest[i] != ".."@ by {
                assert(rest[i] == place[home.len() + i]);
            }
        }
        if exists|rest: Seq<Seq<char>>|
            place == #[trigger] (home + rest) && !rest.contains(".."@) {
            let rest = choose|rest: Seq<Seq<char>>|
                place == #[trigger] (home + rest) && !rest.contains(".."@);
            assert(place.take(home.len() as int) == home);
            assert forall|i: int| home.len() <= i < place.len() implies #[trigger] place[i]
                != ".."@ by {
                assert(place[i] == rest[i - home.len()]);
                assert(rest.contains(rest[i - home.len()]));
            }
        }
    }
}

} // verus!
