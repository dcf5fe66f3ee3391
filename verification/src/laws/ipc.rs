//! Laws of the wire: what is signed, what is framed, what is fresh.
use crate::endian::{big_endian, big_endian_value, lemma_big_endian_round_trip, lemma_fits};
use crate::hexadecimal::{hex_decoded, hex_encoded};
use crate::ipc::canonical::{canonical_text, json_items, json_items_tail, kind_name};
use crate::ipc::framing::{frame, frame_error_text, frame_step, FrameError, FrameStepView};
use crate::ipc::freshness::{is_fresh, is_fresh_by};
use crate::ipc::signing::{hmac_sha256_digest, is_signed, request_digest, signing_message};
use crate::ipc::{CommandView, RequestView};
use crate::json::{escape, escaped, quoted};
use crate::laws::text::law_joined;
use crate::text::{decimal_digits, joined};
use vstd::prelude::*;
use vstd::utf8::encode_utf8;

verus! {

// ---------------------------------------------------------------------------
// JSON
// ---------------------------------------------------------------------------

proof fn lemma_escaped_plain(s: Seq<char>)
    requires
        forall|i: int| 0 <= i < s.len() ==> #[trigger] s[i] >= ' ' && s[i] != '"' && s[i] != '\\',
    ensures
        escaped(s) == s,
    decreases s.len(),
{
    if s.len() > 0 {
        assert(escape(s[0]) == seq![s[0]]);
        lemma_escaped_plain(s.drop_first());
        assert(s == seq![s[0]] + s.drop_first());
    }
}

/// A text without quotes, backslashes and control characters stands between
/// quotes as it is.
pub proof fn law_plain_text_is_quoted_as_it_stands(s: Seq<char>)
    requires
        forall|i: int| 0 <= i < s.len() ==> #[trigger] s[i] >= ' ' && s[i] != '"' && s[i] != '\\',
    ensures
        quoted(s) == seq!['"'] + s + seq!['"'],
{
    lemma_escaped_plain(s);
}

/// Each of `items` as a JSON string.
pub open spec fn all_quoted(items: Seq<Seq<char>>) -> Seq<Seq<char>> {
    Seq::new(items.len(), |i: int| quoted(items[i]))
}

proof fn lemma_items_tail(first: Seq<char>, rest: Seq<Seq<char>>)
    ensures
        quoted(first) + json_items_tail(rest) == joined(
            seq![quoted(first)] + all_quoted(rest),
            seq![','],
        ) + seq![']'],
    decreases rest.len(),
{
    let head = seq![quoted(first)];
    let comma = seq![','];
    law_joined(head, all_quoted(rest), quoted(first), comma);
    if rest.len() == 0 {
        assert(head + all_quoted(rest) == head);
    } else {
        let tail = all_quoted(rest.drop_first());
        lemma_items_tail(rest[0], rest.drop_first());
        assert(all_quoted(rest) == seq![quoted(rest[0])] + tail);
        assert(quoted(first) + json_items_tail(rest) =~= quoted(first) + comma + (quoted(rest[0])
            + json_items_tail(rest.drop_first())));
        assert(quoted(first) + comma + (joined(all_quoted(rest), comma) + seq![']']) =~= quoted(
            first,
        ) + comma + joined(all_quoted(rest), comma) + seq![']']);
    }
}

/// A list of texts is a JSON array whatever their number: a bracket, each text as
/// a JSON string, in order and with one comma between two neighbours, a bracket.
pub proof fn law_array(items: Seq<Seq<char>>)
    ensures
        json_items(items) == seq!['['] + joined(all_quoted(items), seq![',']) + seq![']'],
{
    if items.len() == 0 {
        assert(all_quoted(items) == Seq::<Seq<char>>::empty());
        assert(json_items(items) =~= seq!['['] + Seq::<char>::empty() + seq![']']);
    } else {
        lemma_items_tail(items[0], items.drop_first());
        assert(all_quoted(items) == seq![quoted(items[0])] + all_quoted(items.drop_first()));
        assert(json_items(items) =~= seq!['['] + (quoted(items[0]) + json_items_tail(
            items.drop_first(),
        )));
        assert(seq!['['] + (joined(all_quoted(items), seq![',']) + seq![']']) =~= seq!['[']
            + joined(all_quoted(items), seq![',']) + seq![']']);
    }
}

proof fn lemma_kind_is_plain(command: CommandView)
    ensures
        quoted(kind_name(command)) == seq!['"'] + kind_name(command) + seq!['"'],
{
    reveal_strlit("ping");
    reveal_strlit("start_mihomo");
    reveal_strlit("stop_mihomo");
    reveal_strlit("set_dns");
    reveal_strlit("clear_dns");
    reveal_strlit("get_version");
    reveal_strlit("shutdown");
    law_plain_text_is_quoted_as_it_stands(kind_name(command));
}

/// What every command is as JSON: an object whose first member is the kind, with
/// the fields of the command in order behind it, every text a JSON string and the
/// servers a JSON array of strings, and nothing between the members but commas.
pub proof fn law_canonical_json(command: CommandView)
    ensures
        match command {
            CommandView::Ping => canonical_text(command) == "{\"kind\":\"ping\"}"@,
            CommandView::StopMihomo => canonical_text(command) == "{\"kind\":\"stop_mihomo\"}"@,
            CommandView::ClearDns => canonical_text(command) == "{\"kind\":\"clear_dns\"}"@,
            CommandView::GetVersion => canonical_text(command) == "{\"kind\":\"get_version\"}"@,
            CommandView::Shutdown => canonical_text(command) == "{\"kind\":\"shutdown\"}"@,
            CommandView::StartMihomo { config_dir, config_file, log_file } => canonical_text(
                command,
            ) == "{\"kind\":\"start_mihomo\",\"config_dir\":"@ + quoted(config_dir)
                + ",\"config_file\":"@ + quoted(config_file) + ",\"log_file\":"@ + quoted(log_file)
                + "}"@,
            CommandView::SetDns { servers } => canonical_text(command)
                == "{\"kind\":\"set_dns\",\"servers\":["@ + joined(
                all_quoted(servers),
                ","@,
            ) + "]}"@,
        },
{
    lemma_kind_is_plain(command);
    reveal_strlit("{\"kind\":");
    reveal_strlit("}");
    let open = "{\"kind\":"@;
    let kind = seq!['"'] + kind_name(command) + seq!['"'];
    match command {
        CommandView::Ping => {
            reveal_strlit("ping");
            reveal_strlit("{\"kind\":\"ping\"}");
            assert(canonical_text(command) =~= "{\"kind\":\"ping\"}"@);
        },
        CommandView::StopMihomo => {
            reveal_strlit("stop_mihomo");
            reveal_strlit("{\"kind\":\"stop_mihomo\"}");
            assert(canonical_text(command) =~= "{\"kind\":\"stop_mihomo\"}"@);
        },
        CommandView::ClearDns => {
            reveal_strlit("clear_dns");
            reveal_strlit("{\"kind\":\"clear_dns\"}");
            assert(canonical_text(command) =~= "{\"kind\":\"clear_dns\"}"@);
        },
        CommandView::GetVersion => {
            reveal_strlit("get_version");
            reveal_strlit("{\"kind\":\"get_version\"}");
            assert(canonical_text(command) =~= "{\"kind\":\"get_version\"}"@);
        },
        CommandView::Shutdown => {
            reveal_strlit("shutdown");
            reveal_strlit("{\"kind\":\"shutdown\"}");
            assert(canonical_text(command) =~= "{\"kind\":\"shutdown\"}"@);
        },
        CommandView::StartMihomo { config_dir, config_file, log_file } => {
            let name = ",\"config_dir\":"@;
            let members = quoted(config_dir) + ",\"config_file\":"@ + quoted(config_file)
                + ",\"log_file\":"@ + quoted(log_file) + "}"@;
            assert(open + kind + name == "{\"kind\":\"start_mihomo\",\"config_dir\":"@) by {
                reveal_strlit("start_mihomo");
                reveal_strlit(",\"config_dir\":");
                reveal_strlit("{\"kind\":\"start_mihomo\",\"config_dir\":");
            }
            assert(canonical_text(command) =~= open + kind + name + members);
            assert("{\"kind\":\"start_mihomo\",\"config_dir\":"@ + quoted(config_dir)
                + ",\"config_file\":"@ + quoted(config_file) + ",\"log_file\":"@ + quoted(log_file)
                + "}"@ =~= "{\"kind\":\"start_mihomo\",\"config_dir\":"@ + members);
        },
        CommandView::SetDns { servers } => {
            let name = ",\"servers\":"@;
            let items = joined(all_quoted(servers), seq![',']);
            law_array(servers);
            assert(","@ == seq![',']) by {
                reveal_strlit(",");
            }
            assert(open + kind + name + seq!['['] == "{\"kind\":\"set_dns\",\"servers\":["@) by {
                reveal_strlit("set_dns");
                reveal_strlit(",\"servers\":");
                reveal_strlit("{\"kind\":\"set_dns\",\"servers\":[");
            }
            assert(seq![']'] + "}"@ == "]}"@) by {
                reveal_strlit("]}");
            }
            assert(canonical_text(command) =~= open + kind + name + seq!['['] + items + (seq![']']
                + "}"@));
        },
    }
}

// ---------------------------------------------------------------------------
// Signatures
// ---------------------------------------------------------------------------

proof fn lemma_four_bytes(b: Seq<u8>)
    requires
        b.len() == 4,
    ensures
        big_endian_value(b) == b[0] * 0x100_0000 + b[1] * 0x1_0000 + b[2] * 0x100 + b[3],
{
    reveal_with_fuel(big_endian_value, 5);
    assert(b.drop_last().last() == b[2]);
    assert(b.drop_last().drop_last().last() == b[1]);
    assert(b.drop_last().drop_last().drop_last().last() == b[0]);
}

proof fn lemma_eight_bytes(b: Seq<u8>)
    requires
        b.len() == 8,
    ensures
        big_endian_value(b) == b[0] * 0x100_0000_0000_0000 + b[1] * 0x1_0000_0000_0000 + b[2]
            * 0x100_0000_0000 + b[3] * 0x1_0000_0000 + b[4] * 0x100_0000 + b[5] * 0x1_0000 + b[6]
            * 0x100 + b[7],
{
    let front = b.take(4);
    lemma_four_bytes(front);
    reveal_with_fuel(big_endian_value, 5);
    assert(b.drop_last().drop_last().drop_last().drop_last() == front);
    assert(b.drop_last().last() == b[6]);
    assert(b.drop_last().drop_last().last() == b[5]);
    assert(b.drop_last().drop_last().drop_last().last() == b[4]);
}

/// The bytes that are signed are the timestamp in eight bytes, the highest first,
/// and then the canonical JSON of the command, whole and in UTF-8.
pub proof fn law_signed_bytes(timestamp_nanos: u64, command: CommandView)
    ensures
        ({
            let b = signing_message(timestamp_nanos, command);
            &&& b.len() >= 8
            &&& timestamp_nanos == b[0] * 0x100_0000_0000_0000 + b[1] * 0x1_0000_0000_0000 + b[2]
                * 0x100_0000_0000 + b[3] * 0x1_0000_0000 + b[4] * 0x100_0000 + b[5] * 0x1_0000
                + b[6] * 0x100 + b[7]
            &&& b.skip(8) == encode_utf8(canonical_text(command))
        }),
{
    let b = signing_message(timestamp_nanos, command);
    lemma_fits(timestamp_nanos as nat);
    lemma_big_endian_round_trip(timestamp_nanos as nat, 8);
    assert(b.take(8) == big_endian(timestamp_nanos as nat, 8));
    lemma_eight_bytes(b.take(8));
    assert(b.skip(8) == encode_utf8(canonical_text(command)));
}

/// A request is signed exactly if its HMAC text, read as hexadecimal, is the
/// whole HMAC-SHA256 under the secret of the bytes for its own timestamp and
/// command.
pub proof fn law_signature(secret: Seq<u8>, request: RequestView)
    ensures
        is_signed(secret, request) <==> hex_decoded(request.hmac) == Some(
            hmac_sha256_digest(
                secret,
                signing_message(request.timestamp_nanos, request.command),
            ),
        ),
        request_digest(secret, request.timestamp_nanos, request.command) == hmac_sha256_digest(
            secret,
            signing_message(request.timestamp_nanos, request.command),
        ),
{
}

/// Two lowercase digits stand for each byte, the high half first.
pub proof fn law_hexadecimal(bytes: Seq<u8>, i: int)
    requires
        0 <= i < bytes.len(),
    ensures
        hex_encoded(bytes).len() == 2 * bytes.len(),
        "0123456789abcdef"@[bytes[i] as int / 16] == hex_encoded(bytes)[2 * i],
        "0123456789abcdef"@[bytes[i] as int % 16] == hex_encoded(bytes)[2 * i + 1],
{
    reveal_strlit("0123456789abcdef");
    assert((2 * i) / 2 == i && (2 * i + 1) / 2 == i);
    assert((2 * i) % 2 == 0 && (2 * i + 1) % 2 == 1);
    let b = bytes[i] as int;
    assert(0 <= b / 16 < 16 && 0 <= b % 16 < 16);
}

// ---------------------------------------------------------------------------
// Freshness
// ---------------------------------------------------------------------------

/// A timestamp is fresh exactly if it lies at most thirty seconds before or after
/// the reading of the clock, and never without a reading.
pub proof fn law_fresh(now: u64, timestamp_nanos: u64)
    ensures
        is_fresh(now as int, timestamp_nanos as int) <==> (now - timestamp_nanos
            <= 30 * 1_000_000_000 && timestamp_nanos - now <= 30 * 1_000_000_000),
        is_fresh_by(Some(now), timestamp_nanos) <==> is_fresh(now as int, timestamp_nanos as int),
        !is_fresh_by(None, timestamp_nanos),
{
}

// ---------------------------------------------------------------------------
// Frames
// ---------------------------------------------------------------------------

/// A frame is four bytes that spell the length of the body, the highest first,
/// and then the body, whatever it holds.
pub proof fn law_frame_bytes(body: Seq<u8>)
    requires
        body.len() <= 0x10_0000,
    ensures
        ({
            let b = frame(body);
            &&& b.len() == 4 + body.len()
            &&& body.len() == b[0] * 0x100_0000 + b[1] * 0x1_0000 + b[2] * 0x100 + b[3]
            &&& b.skip(4) == body
        }),
{
    lemma_fits(body.len());
    lemma_big_endian_round_trip(body.len(), 4);
    assert(frame(body).take(4) == big_endian(body.len(), 4));
    lemma_four_bytes(frame(body).take(4));
    assert(frame(body).skip(4) == body);
}

/// What is made of any bytes: until there are four, the missing ones of these are
/// asked for; a length over 1 MiB is refused and named; else the missing bytes of
/// the body are asked for, and with all of them there the body is what follows the
/// four bytes, as long as they say.
pub proof fn law_reader(received: Seq<u8>)
    ensures
        received.len() < 4 ==> frame_step(received) == FrameStepView::More(
            (4 - received.len()) as nat,
        ),
        received.len() >= 4 ==> {
            let n = received[0] * 0x100_0000 + received[1] * 0x1_0000 + received[2] * 0x100
                + received[3];
            match frame_step(received) {
                FrameStepView::Refused(FrameError::TooLarge { len }) => n > 0x10_0000 && len == n,
                FrameStepView::More(more) => n <= 0x10_0000 && more > 0 && received.len() + more
                    == 4 + n,
                FrameStepView::Body(body) => n <= 0x10_0000 && received.len() >= 4 + n && body
                    == received.skip(4).take(n),
            }
        },
{
    if received.len() >= 4 {
        lemma_four_bytes(received.take(4));
        let n = big_endian_value(received.take(4));
        if received.len() >= 4 + n {
            assert(received.skip(4).take(n as int) == received.subrange(4, 4 + n as int));
        }
    }
}

/// The text of a refusal names the length and the cap, both in decimal.
pub proof fn law_refusal_names_the_length(len: u64)
    ensures
        frame_error_text(FrameError::TooLarge { len }) == "frame too large: "@ + decimal_digits(
            len as nat,
        ) + " bytes (cap "@ + decimal_digits(0x10_0000) + ")"@,
{
}

} // verus!
