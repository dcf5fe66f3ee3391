//! Canonical JSON of a command: the form that both sides of a connection sign.
use crate::ipc::{Command, CommandView};
use crate::json::{json_string, law_quoted_unambiguous, quoted};
use crate::text::texts;
use vstd::prelude::*;
use vstd::utf8::{encode_utf8, encode_utf8_decode_utf8};

verus! {

/// The tag of a command.
pub open spec fn kind_name(command: CommandView) -> Seq<char> {
    match command {
        CommandView::Ping => "ping"@,
        CommandView::StartMihomo { .. } => "start_mihomo"@,
        CommandView::StopMihomo => "stop_mihomo"@,
        CommandView::SetDns { .. } => "set_dns"@,
        CommandView::ClearDns => "clear_dns"@,
        CommandView::GetVersion => "get_version"@,
        CommandView::Shutdown => "shutdown"@,
    }
}

/// The rest of a JSON array of strings after one of its items.
pub open spec fn json_items_tail(items: Seq<Seq<char>>) -> Seq<char>
    decreases items.len(),
{
    if items.len() == 0 {
        seq![']']
    } else {
        seq![','] + quoted(items[0]) + json_items_tail(items.drop_first())
    }
}

/// A JSON array of strings.
pub open spec fn json_items(items: Seq<Seq<char>>) -> Seq<char> {
    if items.len() == 0 {
        seq!['[', ']']
    } else {
        seq!['['] + quoted(items[0]) + json_items_tail(items.drop_first())
    }
}

/// The members of a command's JSON object after its tag.
pub open spec fn command_fields(command: CommandView) -> Seq<char> {
    match command {
        CommandView::StartMihomo { config_dir, config_file, log_file } => {
            ",\"config_dir\":"@ + quoted(config_dir) + ",\"config_file\":"@ + quoted(config_file)
                + ",\"log_file\":"@ + quoted(log_file)
        },
        CommandView::SetDns { servers } => ",\"servers\":"@ + json_items(servers),
        _ => Seq::empty(),
    }
}

/// A command as canonical JSON text.
pub open spec fn canonical_text(command: CommandView) -> Seq<char> {
    "{\"kind\":"@ + quoted(kind_name(command)) + command_fields(command) + "}"@
}

fn json_list(items: &Vec<String>) -> (r: String)
    ensures
        r@ == json_items(texts(items@)),
{
    let ghost all = texts(items@);
    if items.len() == 0 {
        let mut r: String = String::new();
        r.push('[');
        r.push(']');
        return r;
    }
    let mut r: String = String::new();
    r.push('[');
    r.append(json_string(items[0].as_str()).as_str());
    let mut i: usize = 1;
    assert(all.drop_first() == all.skip(1));
    while i < items.len()
        invariant
            1 <= i <= items.len(),
            all == texts(items@),
            r@ + json_items_tail(all.skip(i as int)) == json_items(all),
        decreases items.len() - i,
    {
        let ghost rest = all.skip(i as int);
        let ghost before = r@;
        let item: String = json_string(items[i].as_str());
        r.push(',');
        r.append(item.as_str());
        assert(rest.drop_first() == all.skip(i + 1));
        assert(r@ == before + (seq![','] + quoted(rest[0])));
        assert(r@ + json_items_tail(all.skip(i + 1)) == before + json_items_tail(rest));
        i = i + 1;
    }
    r.push(']');
    r
}

fn kind_of(command: &Command) -> (r: &'static str)
    ensures
        r@ == kind_name(command@),
{
    match command {
        Command::Ping => "ping",
        Command::StartMihomo { .. } => "start_mihomo",
        Command::StopMihomo => "stop_mihomo",
        Command::SetDns { .. } => "set_dns",
        Command::ClearDns => "clear_dns",
        Command::GetVersion => "get_version",
        Command::Shutdown => "shutdown",
    }
}

/// The canonical JSON bytes of `command`, the form that both sides of the
/// connection sign.
pub fn canonical_command_bytes(command: &Command) -> (r: Vec<u8>)
    ensures
        r@ == encode_utf8(canonical_text(command@)),
{
    let mut t: String = "{\"kind\":".to_owned();
    t.append(json_string(kind_of(command)).as_str());
    match command {
        Command::StartMihomo { config_dir, config_file, log_file } => {
            t.append(",\"config_dir\":");
            t.append(json_string(config_dir.as_str()).as_str());
            t.append(",\"config_file\":");
            t.append(json_string(config_file.as_str()).as_str());
            t.append(",\"log_file\":");
            t.append(json_string(log_file.as_str()).as_str());
        },
        Command::SetDns { servers } => {
            t.append(",\"servers\":");
            t.append(json_list(servers).as_str());
        },
        _ => {},
    }
    t.append("}");
    assert(t@ == canonical_text(command@));
    t.as_str().as_bytes_vec()
}

proof fn lemma_same_prefix<A>(p: Seq<A>, x: Seq<A>, y: Seq<A>)
    requires
        p + x == p + y,
    ensures
        x == y,
{
    assert((p + x).skip(p.len() as int) == x);
    assert((p + y).skip(p.len() as int) == y);
}

proof fn lemma_items_tail_unambiguous(
    a: Seq<Seq<char>>,
    b: Seq<Seq<char>>,
    x: Seq<char>,
    y: Seq<char>,
)
    requires
        json_items_tail(a) + x == json_items_tail(b) + y,
    ensures
        a == b,
        x == y,
    decreases a.len(),
{
    let p = json_items_tail(a) + x;
    let q = json_items_tail(b) + y;
    assert(a.len() == 0 ==> p[0] == ']');
    assert(b.len() == 0 ==> q[0] == ']');
    assert(a.len() > 0 ==> p[0] == ',');
    assert(b.len() > 0 ==> q[0] == ',');
    if a.len() == 0 {
        assert(p.skip(1) == x && q.skip(1) == y);
        assert(a == b);
    } else {
        let p1 = json_items_tail(a.drop_first()) + x;
        let q1 = json_items_tail(b.drop_first()) + y;
        assert(p.skip(1) == quoted(a[0]) + p1);
        assert(q.skip(1) == quoted(b[0]) + q1);
        law_quoted_unambiguous(a[0], b[0], p1, q1);
        lemma_items_tail_unambiguous(a.drop_first(), b.drop_first(), x, y);
        assert(a == seq![a[0]] + a.drop_first());
        assert(b == seq![b[0]] + b.drop_first());
    }
}

proof fn lemma_items_unambiguous(
    a: Seq<Seq<char>>,
    b: Seq<Seq<char>>,
    x: Seq<char>,
    y: Seq<char>,
)
    requires
        json_items(a) + x == json_items(b) + y,
    ensures
        a == b,
        x == y,
{
    let p = json_items(a) + x;
    let q = json_items(b) + y;
    assert(a.len() == 0 ==> p[1] == ']');
    assert(b.len() == 0 ==> q[1] == ']');
    assert(a.len() > 0 ==> p[1] == quoted(a[0])[0]);
    assert(b.len() > 0 ==> q[1] == quoted(b[0])[0]);
    if a.len() == 0 {
        assert(p.skip(2) == x && q.skip(2) == y);
        assert(a == b);
    } else {
        let p1 = json_items_tail(a.drop_first()) + x;
        let q1 = json_items_tail(b.drop_first()) + y;
        assert(p.skip(1) == quoted(a[0]) + p1);
        assert(q.skip(1) == quoted(b[0]) + q1);
        law_quoted_unambiguous(a[0], b[0], p1, q1);
        lemma_items_tail_unambiguous(a.drop_first(), b.drop_first(), x, y);
        assert(a == seq![a[0]] + a.drop_first());
        assert(b == seq![b[0]] + b.drop_first());
    }
}

/// No two kinds share a tag.
proof fn lemma_kind_names_differ(c: CommandView, d: CommandView)
    requires
        kind_name(c) == kind_name(d),
    ensures
        c is Ping <==> d is Ping,
        c is StartMihomo <==> d is StartMihomo,
        c is StopMihomo <==> d is StopMihomo,
        c is SetDns <==> d is SetDns,
        c is ClearDns <==> d is ClearDns,
        c is GetVersion <==> d is GetVersion,
        c is Shutdown <==> d is Shutdown,
{
    reveal_strlit("ping");
    reveal_strlit("start_mihomo");
    reveal_strlit("stop_mihomo");
    reveal_strlit("set_dns");
    reveal_strlit("clear_dns");
    reveal_strlit("get_version");
    reveal_strlit("shutdown");
    assert("ping"@.len() == 4 && "start_mihomo"@.len() == 12 && "stop_mihomo"@.len() == 11);
    assert("set_dns"@.len() == 7 && "clear_dns"@.len() == 9 && "shutdown"@.len() == 8);
    assert("get_version"@.len() == 11);
    assert("get_version"@[0] == 'g' && "stop_mihomo"@[0] == 's');
}

proof fn lemma_three_members(
    k1: Seq<char>,
    v1: Seq<char>,
    k2: Seq<char>,
    v2: Seq<char>,
    k3: Seq<char>,
    v3: Seq<char>,
    end: Seq<char>,
)
    ensures
        k1 + v1 + k2 + v2 + k3 + v3 + end == k1 + (v1 + (k2 + (v2 + (k3 + (v3 + end))))),
{
    assert(k1 + v1 + k2 + v2 + k3 + v3 + end =~= k1 + (v1 + (k2 + (v2 + (k3 + (v3 + end))))));
}

/// Three named strings in a row can be told apart.
proof fn lemma_members_unambiguous(
    names: (Seq<char>, Seq<char>, Seq<char>),
    a: (Seq<char>, Seq<char>, Seq<char>),
    b: (Seq<char>, Seq<char>, Seq<char>),
    end: Seq<char>,
)
    requires
        names.0 + quoted(a.0) + names.1 + quoted(a.1) + names.2 + quoted(a.2) + end == names.0
            + quoted(b.0) + names.1 + quoted(b.1) + names.2 + quoted(b.2) + end,
    ensures
        a == b,
{
    let x3 = quoted(a.2) + end;
    let y3 = quoted(b.2) + end;
    let x2 = quoted(a.1) + (names.2 + x3);
    let y2 = quoted(b.1) + (names.2 + y3);
    let x1 = quoted(a.0) + (names.1 + x2);
    let y1 = quoted(b.0) + (names.1 + y2);
    lemma_three_members(
        names.0,
        quoted(a.0),
        names.1,
        quoted(a.1),
        names.2,
        quoted(a.2),
        end,
    );
    lemma_three_members(
        names.0,
        quoted(b.0),
        names.1,
        quoted(b.1),
        names.2,
        quoted(b.2),
        end,
    );
    lemma_same_prefix(names.0, x1, y1);
    law_quoted_unambiguous(a.0, b.0, names.1 + x2, names.1 + y2);
    lemma_same_prefix(names.1, x2, y2);
    law_quoted_unambiguous(a.1, b.1, names.2 + x3, names.2 + y3);
    lemma_same_prefix(names.2, x3, y3);
    law_quoted_unambiguous(a.2, b.2, end, end);
}

/// Two commands of one kind with the same fields text are the same command.
proof fn lemma_fields_unambiguous(c: CommandView, d: CommandView)
    requires
        kind_name(c) == kind_name(d),
        command_fields(c) + "}"@ == command_fields(d) + "}"@,
    ensures
        c == d,
{
    lemma_kind_names_differ(c, d);
    match (c, d) {
        (
            CommandView::StartMihomo { config_dir: d1, config_file: f1, log_file: l1 },
            CommandView::StartMihomo { config_dir: d2, config_file: f2, log_file: l2 },
        ) => {
            lemma_members_unambiguous(
                (",\"config_dir\":"@, ",\"config_file\":"@, ",\"log_file\":"@),
                (d1, f1, l1),
                (d2, f2, l2),
                "}"@,
            );
        },
        (CommandView::SetDns { servers: s1 }, CommandView::SetDns { servers: s2 }) => {
            let x1 = json_items(s1) + "}"@;
            let y1 = json_items(s2) + "}"@;
            assert(command_fields(c) + "}"@ == ",\"servers\":"@ + x1);
            assert(command_fields(d) + "}"@ == ",\"servers\":"@ + y1);
            lemma_same_prefix(",\"servers\":"@, x1, y1);
            lemma_items_unambiguous(s1, s2, "}"@, "}"@);
        },
        _ => {},
    }
}

/// The canonical JSON of a command stands for no other command.
pub proof fn law_canonical_unambiguous(c: CommandView, d: CommandView)
    requires
        encode_utf8(canonical_text(c)) == encode_utf8(canonical_text(d)),
    ensures
        c == d,
{
    encode_utf8_decode_utf8(canonical_text(c));
    encode_utf8_decode_utf8(canonical_text(d));
    let x = quoted(kind_name(c)) + (command_fields(c) + "}"@);
    let y = quoted(kind_name(d)) + (command_fields(d) + "}"@);
    assert(canonical_text(c) == "{\"kind\":"@ + x);
    assert(canonical_text(d) == "{\"kind\":"@ + y);
    lemma_same_prefix("{\"kind\":"@, x, y);
    law_quoted_unambiguous(
        kind_name(c),
        kind_name(d),
        command_fields(c) + "}"@,
        command_fields(d) + "}"@,
    );
    lemma_fields_unambiguous(c, d);
}

} // verus!
