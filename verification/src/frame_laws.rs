//! What holds of blueprint strings: a blueprint that is written is read
//! again as it was, and a text whose checksum was changed is not read at
//! all.

use crate::blueprint::{
    checksum, decode_payload, has_no_comma, is_payload_of, is_plain, joined, prefix,
    BlueprintView, FrameView,
};
use crate::data::blueprint::BlueprintDataView;
use crate::error::Error;
use crate::md5::{lemma_digest_len, Algo};
use crate::text::{
    decimal, hex_text, hex_value, is_digit, is_whitespace, last_index_of, leading_space,
    trailing_space, lemma_decimal, lemma_hex_roundtrip, lemma_last_index_of_push,
    lemma_split_last, lemma_split_none, lemma_split_parts, lemma_split_push, lemma_trim_ends,
    lemma_trim_nothing, parse_hex_digest, split, trim,
};
use vstd::prelude::*;

verus! {

/// A hexadecimal digit stands for a number below sixteen.
proof fn lemma_hex_value_bound(c: char)
    ensures
        hex_value(c) matches Some(v) ==> v < 16,
{
}

/// A number in decimal holds neither a comma nor a quote.
proof fn lemma_decimal_plain(n: nat)
    ensures
        !decimal(n).contains(','),
        !decimal(n).contains('"'),
        decimal(n).len() > 0,
{
    lemma_decimal(n);
    let d = decimal(n);
    if d.contains(',') {
        let i = choose|i: int| 0 <= i < d.len() && d[i] == ',';
        assert(is_digit(d[i]));
    }
    if d.contains('"') {
        let i = choose|i: int| 0 <= i < d.len() && d[i] == '"';
        assert(is_digit(d[i]));
    }
}

/// A text without commas does not contain a comma.
proof fn lemma_no_comma(s: Seq<char>)
    requires
        has_no_comma(s),
    ensures
        !s.contains(','),
{
    if s.contains(',') {
        let i = choose|i: int| 0 <= i < s.len() && s[i] == ',';
        assert(s[i] != ',');
    }
}

/// A text with neither comma nor quote contains neither.
proof fn lemma_plain(s: Seq<char>)
    requires
        is_plain(s),
    ensures
        !s.contains(','),
        !s.contains('"'),
{
    if s.contains(',') {
        let i = choose|i: int| 0 <= i < s.len() && s[i] == ',';
        assert(s[i] != ',');
    }
    if s.contains('"') {
        let i = choose|i: int| 0 <= i < s.len() && s[i] == '"';
        assert(s[i] != '"');
    }
}

/// Fields without commas, joined with commas, are split into the fields
/// again.
proof fn lemma_split_joined(fields: Seq<Seq<char>>, n: nat)
    requires
        n < fields.len(),
        forall|k: int| 0 <= k <= n ==> !(#[trigger] fields[k]).contains(','),
    ensures
        split(joined(fields, n), ',') == fields.take(n as int + 1),
    decreases n,
{
    if n == 0 {
        lemma_split_none(fields[0], ',');
        assert(fields.take(1) =~= seq![fields[0]]);
    } else {
        lemma_split_joined(fields, (n - 1) as nat);
        lemma_split_push(joined(fields, (n - 1) as nat), fields[n as int], ',');
    }
}

/// The text of a well-formed frame behind the prefix is its fields, joined
/// with commas, and none of the fields holds a comma.
proof fn lemma_body_fields(f: FrameView)
    requires
        f.wf(),
    ensures
        f.body().len() >= 10,
        f.body().take(10) == prefix(),
        f.body().skip(10) == joined(f.fields(), 11),
        f.fields().len() == 12,
        forall|k: int| 0 <= k < 12 ==> !(#[trigger] f.fields()[k]).contains(','),
        f.body().len() > 0,
        f.body()[0] == 'B',
        !is_whitespace(f.body().last()),
{
    let fields = f.fields();
    lemma_decimal_plain(f.layout as nat);
    lemma_decimal_plain(f.icons[0] as nat);
    lemma_decimal_plain(f.icons[1] as nat);
    lemma_decimal_plain(f.icons[2] as nat);
    lemma_decimal_plain(f.icons[3] as nat);
    lemma_decimal_plain(f.icons[4] as nat);
    lemma_decimal_plain(f.timestamp as nat);
    lemma_no_comma(f.game_version);
    lemma_no_comma(f.icon_text);
    lemma_plain(f.desc);
    lemma_plain(f.payload);
    let last = f.desc + seq!['"'] + f.payload;
    assert(!last.contains(',')) by {
        if last.contains(',') {
            let i = choose|i: int| 0 <= i < last.len() && last[i] == ',';
            assert(i != f.desc.len());
        }
    }
    assert(!seq!['0'].contains(',')) by {
        if seq!['0'].contains(',') {
            let i = choose|i: int| 0 <= i < seq!['0'].len() && seq!['0'][i] == ',';
            assert(i == 0);
        }
    }
    assert forall|k: int| 0 <= k < 12 implies !(#[trigger] fields[k]).contains(',') by {}
    assert(f.body().skip(10) =~= joined(fields, 11));
}

/// A text of 32 hexadecimal digits behind a quote behind the text of a
/// well-formed frame: the quote is the last of the whole, and neither part
/// changes when it is trimmed.
proof fn lemma_two_parts(f: FrameView, hex: Seq<char>)
    requires
        f.wf(),
        hex.len() == 32,
        forall|k: int| 0 <= k < 32 ==> hex_value(#[trigger] hex[k]) is Some,
    ensures
        last_index_of(f.body() + seq!['"'] + hex, '"') == Some(f.body().len() as int),
        trim((f.body() + seq!['"'] + hex).take(f.body().len() as int)) == f.body(),
        trim((f.body() + seq!['"'] + hex).skip(f.body().len() as int + 1)) == hex,
{
    let body = f.body();
    assert forall|k: int| 0 <= k < hex.len() implies hex[k] != '"' by {}
    lemma_last_index_of_push(body, '"', hex);
    lemma_body_fields(f);
    lemma_trim_nothing(body);
    assert(!is_whitespace(hex[0]) && !is_whitespace(hex.last()));
    lemma_trim_nothing(hex);
}

/// **A frame that is written is read again as it was.** This holds of
/// every well-formed frame.
pub proof fn lemma_frame_roundtrip(f: FrameView)
    requires
        f.wf(),
    ensures
        FrameView::parse(f.text()) == Ok::<FrameView, Error>(f),
{
    let body = f.body();
    let sum = checksum(body);
    let hex = hex_text(sum);
    lemma_digest_len(Algo::MD5F, vstd::utf8::encode_utf8(body));
    lemma_hex_roundtrip(sum);
    lemma_two_parts(f, hex);
    lemma_body_fields(f);
    lemma_split_joined(f.fields(), 11);
    lemma_plain(f.desc);
    lemma_plain(f.payload);
    lemma_split_none(f.desc, '"');
    lemma_split_push(f.desc, f.payload, '"');
    lemma_decimal(0);
    lemma_decimal(f.layout as nat);
    lemma_decimal(f.icons[0] as nat);
    lemma_decimal(f.icons[1] as nat);
    lemma_decimal(f.icons[2] as nat);
    lemma_decimal(f.icons[3] as nat);
    lemma_decimal(f.icons[4] as nat);
    lemma_decimal(f.timestamp as nat);
    let back = FrameView::parse_fields(body.skip(10))->Ok_0;
    assert(back.icons =~= f.icons);
}

/// What is read from a blueprint string is a well-formed frame.
pub proof fn lemma_parsed_frame_wf(s: Seq<char>)
    requires
        FrameView::parse(s) is Ok,
    ensures
        FrameView::parse(s)->Ok_0.wf(),
{
    let f = FrameView::parse(s)->Ok_0;
    let q = last_index_of(s, '"')->0;
    let body = trim(s.take(q));
    let rest = body.skip(10);
    let parts = split(rest, ',');
    let tail = split(parts[11], '"');
    lemma_split_parts(rest, ',');
    lemma_split_parts(parts[11], '"');
    assert forall|i: int| 0 <= i < f.desc.len() implies #[trigger] f.desc[i] != ',' && f.desc[i]
        != '"' by {
        let at = choose|at: int| 0 <= at < parts[11].len() && parts[11][at] == tail[0][i];
        assert(parts[11][at] != ',');
    }
    assert forall|i: int| 0 <= i < f.payload.len() implies #[trigger] f.payload[i] != ','
        && f.payload[i] != '"' by {
        let at = choose|at: int| 0 <= at < parts[11].len() && parts[11][at] == tail[1][i];
        assert(parts[11][at] != ',');
    }
    assert forall|i: int| 0 <= i < f.game_version.len() implies #[trigger] f.game_version[i]
        != ',' by {}
    assert forall|i: int| 0 <= i < f.icon_text.len() implies #[trigger] f.icon_text[i] != ',' by {}
    if f.payload.len() > 0 {
        lemma_trim_ends(s.take(q));
        lemma_split_last(rest, ',');
        lemma_split_last(parts[11], '"');
    }
}

/// **A blueprint that is written is read again as it was**, whatever the
/// compression made of its payload. This holds of every well-formed
/// blueprint and of every text that is a blueprint string of it.
pub proof fn lemma_blueprint_roundtrip(bp: BlueprintView, s: Seq<char>)
    requires
        bp.wf(),
        bp.is_text_of(s),
    ensures
        BlueprintView::decode(s) matches Ok((v, _)) && v == bp,
{
    let payload = choose|payload: Seq<char>| #[trigger]
        is_payload_of(payload, bp.data) && s == bp.frame(payload).text();
    let f = bp.frame(payload);
    assert(is_plain(payload)) by {
        assert forall|i: int| 0 <= i < payload.len() implies #[trigger] payload[i] != ','
            && payload[i] != '"' by {}
    }
    lemma_frame_roundtrip(f);
    bp.data.lemma_encoding_decode(Seq::empty());
}

/// What is read from a blueprint string is a well-formed blueprint.
pub proof fn lemma_decoded_blueprint_wf(s: Seq<char>)
    requires
        BlueprintView::decode(s) is Ok,
    ensures
        BlueprintView::decode(s)->Ok_0.0.wf(),
{
    lemma_parsed_frame_wf(s);
    let f = FrameView::parse(s)->Ok_0;
    let raw = decode_payload(f.payload)->Ok_0.1;
    BlueprintDataView::lemma_decode_encoding(raw);
}

/// **Reading, writing and reading again gives what the first reading
/// gave.** Where a text is read as a blueprint, every blueprint string of
/// that blueprint is read as the same blueprint. The two texts need not be
/// the same: compression is free to give another payload.
pub proof fn lemma_read_write_read(s: Seq<char>, again: Seq<char>)
    requires
        BlueprintView::decode(s) is Ok,
        BlueprintView::decode(s)->Ok_0.0.is_text_of(again),
    ensures
        BlueprintView::decode(again) matches Ok((v, _)) && v == BlueprintView::decode(s)->Ok_0.0,
{
    lemma_decoded_blueprint_wf(s);
    lemma_blueprint_roundtrip(BlueprintView::decode(s)->Ok_0.0, again);
}

/// **A text whose checksum was changed is not read.** Where one digit of
/// the checksum of a blueprint string is put for another that stands for
/// another number, reading fails with a checksum mismatch, whatever the
/// rest of the text holds: the payload is not looked at.
pub proof fn lemma_tampered_checksum(f: FrameView, at: int, digit: char)
    requires
        f.wf(),
        0 <= at < 32,
        hex_value(digit) is Some,
        hex_value(digit) != hex_value(hex_text(checksum(f.body()))[at]),
    ensures
        FrameView::parse(
            f.body() + seq!['"'] + hex_text(checksum(f.body())).update(at, digit),
        ) == Err::<FrameView, Error>(Error::ChecksumMismatch),
{
    let body = f.body();
    let sum = checksum(body);
    let hex = hex_text(sum);
    let bad = hex.update(at, digit);
    lemma_digest_len(Algo::MD5F, vstd::utf8::encode_utf8(body));
    lemma_hex_roundtrip(sum);
    assert forall|k: int| 0 <= k < 32 implies hex_value(#[trigger] bad[k]) is Some by {}
    lemma_two_parts(f, bad);
    let given = parse_hex_digest(bad)->0;
    let good = parse_hex_digest(hex)->0;
    let byte = at / 2;
    assert(given[byte] != good[byte]) by {
        lemma_hex_value_bound(hex[2 * byte]);
        lemma_hex_value_bound(hex[2 * byte + 1]);
        lemma_hex_value_bound(digit);
    }
}

/// The place where a character last stands is a place of the text. Behind
/// it, putting another character into the text does not move it.
proof fn lemma_last_index_kept(s: Seq<char>, c: char, at: int, d: char)
    requires
        last_index_of(s, c) is Some,
        last_index_of(s, c)->0 < at < s.len(),
        d != c,
    ensures
        0 <= last_index_of(s, c)->0 < s.len(),
        last_index_of(s.update(at, d), c) == last_index_of(s, c),
    decreases s.len(),
{
    let changed = s.update(at, d);
    lemma_last_index_bound(s, c);
    if s.last() != c {
        if at == s.len() - 1 {
            assert(changed.drop_last() =~= s.drop_last());
            lemma_last_index_bound(s.drop_last(), c);
        } else {
            assert(changed.drop_last() =~= s.drop_last().update(at, d));
            lemma_last_index_kept(s.drop_last(), c, at, d);
        }
    }
}

/// The place where a character last stands is a place of the text.
proof fn lemma_last_index_bound(s: Seq<char>, c: char)
    ensures
        last_index_of(s, c) matches Some(q) ==> 0 <= q < s.len(),
    decreases s.len(),
{
    if s.len() > 0 && s.last() != c {
        lemma_last_index_bound(s.drop_last(), c);
    }
}

/// Putting a character that is no white space in the place of another
/// leaves the white space at the start of a text as it is.
proof fn lemma_leading_space_kept(t: Seq<char>, i: int, d: char)
    requires
        0 <= i < t.len(),
        !is_whitespace(t[i]),
        !is_whitespace(d),
    ensures
        leading_space(t.update(i, d)) == leading_space(t),
        leading_space(t) <= i,
    decreases t.len(),
{
    if is_whitespace(t[0]) {
        assert(t.update(i, d).skip(1) =~= t.skip(1).update(i - 1, d));
        lemma_leading_space_kept(t.skip(1), i - 1, d);
    }
}

/// Putting a character that is no white space in the place of another
/// leaves the white space at the end of a text as it is.
proof fn lemma_trailing_space_kept(t: Seq<char>, i: int, d: char)
    requires
        0 <= i < t.len(),
        !is_whitespace(t[i]),
        !is_whitespace(d),
    ensures
        trailing_space(t.update(i, d)) == trailing_space(t),
        i < t.len() - trailing_space(t),
    decreases t.len(),
{
    if is_whitespace(t.last()) {
        assert(t.update(i, d).drop_last() =~= t.drop_last().update(i, d));
        lemma_trailing_space_kept(t.drop_last(), i, d);
    }
}

/// **No text that is read stays readable when a digit of its checksum is
/// changed.** Where a text is read as a frame, and a hexadecimal digit
/// behind its last quote is put for another that stands for another number,
/// reading the changed text fails with a checksum mismatch.
pub proof fn lemma_tampered_text(s: Seq<char>, at: int, digit: char)
    requires
        FrameView::parse(s) is Ok,
        last_index_of(s, '"')->0 < at < s.len(),
        hex_value(s[at]) is Some,
        hex_value(digit) is Some,
        hex_value(digit) != hex_value(s[at]),
    ensures
        FrameView::parse(s.update(at, digit)) == Err::<FrameView, Error>(Error::ChecksumMismatch),
{
    let q = last_index_of(s, '"')->0;
    let changed = s.update(at, digit);
    lemma_last_index_kept(s, '"', at, digit);
    assert(changed.take(q) =~= s.take(q));
    let tail = s.skip(q + 1);
    let i = at - q - 1;
    assert(changed.skip(q + 1) =~= tail.update(i, digit));
    lemma_leading_space_kept(tail, i, digit);
    lemma_trailing_space_kept(tail, i, digit);
    let hex = trim(tail);
    let j = i - leading_space(tail);
    assert(trim(tail.update(i, digit)) =~= hex.update(j, digit));
    let bad = hex.update(j, digit);
    assert forall|k: int| 0 <= k < 32 implies hex_value(#[trigger] bad[k]) is Some by {
        if k != j {
            assert(bad[k] == hex[k]);
        }
    }
    let given = parse_hex_digest(bad)->0;
    let good = parse_hex_digest(hex)->0;
    let byte = j / 2;
    assert(given[byte] != good[byte]) by {
        lemma_hex_value_bound(hex[2 * byte]);
        lemma_hex_value_bound(hex[2 * byte + 1]);
        lemma_hex_value_bound(digit);
    }
}

} // verus!
