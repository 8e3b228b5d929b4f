//! The blueprint string: a line of text that frames the binary payload.
//!
//! The text reads `BLUEPRINT:0,` followed by the layout, five icons, `0`, the
//! time, the version of the game, the icon text and the description, all
//! separated by commas. Behind the description stands a quote, the payload in
//! base64, another quote, and the checksum of all that stands before that
//! last quote, in hexadecimal.
//!
//! [`Frame`] is the text taken apart, with the payload still in base64.
//! [`Blueprint`] is the frame with the payload decoded.

use crate::data::blueprint::{BlueprintData, BlueprintDataView};
use crate::error::Error;
use crate::frame_laws::{
    lemma_blueprint_roundtrip, lemma_decoded_blueprint_wf, lemma_frame_roundtrip,
    lemma_parsed_frame_wf,
};
use crate::md5::{digest, Algo, MD5Hash, MD5};
use crate::text::{
    chars_of, decimal, hex_text, is_whitespace, last_index_of, number_u32, number_u64,
    parse_hex, parse_hex_digest, parse_u32, parse_u64, push_all, push_decimal, push_hex,
    rfind_char, split, split_range, starts_with, string_of, trim, trim_range,
};
use crate::transform::{
    base64_decode, base64_decoded, base64_encode, base64_fits, deflate, gunzipped, gzipped,
    inflate, is_base64_char, percent_encoded, url_decode, url_decoded, url_encode,
};
use vstd::prelude::*;
use vstd::slice::slice_subrange;
use vstd::utf8::encode_utf8;

verus! {

/// The text that every blueprint string starts with.
pub open spec fn prefix() -> Seq<char> {
    seq!['B', 'L', 'U', 'E', 'P', 'R', 'I', 'N', 'T', ':']
}

/// The checksum of a text: the digest of its UTF-8 form, in the variant of
/// the algorithm that signs blueprint strings.
pub open spec fn checksum(text: Seq<char>) -> Seq<u8> {
    digest(Algo::MD5F, encode_utf8(text))
}

/// A blueprint string taken apart, with the payload as the text that it is.
#[derive(Clone, Debug, PartialEq, Eq)]
pub struct Frame {
    /// The layout of the icons.
    pub layout: u32,
    /// The five icons, as icon numbers.
    pub icons: [u32; 5],
    /// When the blueprint was made.
    pub timestamp: u64,
    /// The version of the game that made the blueprint.
    pub game_version: String,
    /// The text beside the icons, with percent escapes.
    pub icon_text: String,
    /// The description, with percent escapes.
    pub desc: String,
    /// The payload, in base64.
    pub payload: String,
}

/// A frame as a mathematical value.
pub struct FrameView {
    pub layout: u32,
    pub icons: Seq<u32>,
    pub timestamp: u64,
    pub game_version: Seq<char>,
    pub icon_text: Seq<char>,
    pub desc: Seq<char>,
    pub payload: Seq<char>,
}

impl View for Frame {
    type V = FrameView;

    open spec fn view(&self) -> FrameView {
        FrameView {
            layout: self.layout,
            icons: self.icons@,
            timestamp: self.timestamp,
            game_version: self.game_version@,
            icon_text: self.icon_text@,
            desc: self.desc@,
            payload: self.payload@,
        }
    }
}

/// The first `n + 1` of a sequence of texts, with commas between them.
pub open spec fn joined(fields: Seq<Seq<char>>, n: nat) -> Seq<char>
    decreases n,
{
    if n == 0 {
        fields[0]
    } else {
        joined(fields, (n - 1) as nat) + seq![','] + fields[n as int]
    }
}

/// Whether a text holds no comma.
pub open spec fn has_no_comma(s: Seq<char>) -> bool {
    forall|i: int| 0 <= i < s.len() ==> #[trigger] s[i] != ','
}

/// Whether a text holds neither a comma nor a quote.
pub open spec fn is_plain(s: Seq<char>) -> bool {
    forall|i: int| 0 <= i < s.len() ==> #[trigger] s[i] != ',' && s[i] != '"'
}

impl FrameView {
    /// The twelve fields of the frame, as they stand between the commas of
    /// its text. The first and the eighth always hold zero; the last holds
    /// the description and, behind a quote, the payload.
    pub open spec fn fields(self) -> Seq<Seq<char>> {
        seq![
            seq!['0'],
            decimal(self.layout as nat),
            decimal(self.icons[0] as nat),
            decimal(self.icons[1] as nat),
            decimal(self.icons[2] as nat),
            decimal(self.icons[3] as nat),
            decimal(self.icons[4] as nat),
            seq!['0'],
            decimal(self.timestamp as nat),
            self.game_version,
            self.icon_text,
            self.desc + seq!['"'] + self.payload,
        ]
    }

    /// The text of the frame up to the quote that closes the payload: the
    /// prefix, and the fields with commas between them.
    pub open spec fn body(self) -> Seq<char> {
        prefix() + joined(self.fields(), 11)
    }

    /// The text of the frame.
    pub open spec fn text(self) -> Seq<char> {
        self.body() + seq!['"'] + hex_text(checksum(self.body()))
    }

    /// What the fields of a frame hold: the text behind the prefix, taken
    /// apart at its commas.
    pub open spec fn parse_fields(rest: Seq<char>) -> Result<FrameView, Error> {
        let f = split(rest, ',');
        if f.len() != 12 {
            Err(Error::BadFieldCount)
        } else {
            let tail = split(f[11], '"');
            if tail.len() != 2 {
                Err(Error::BadFieldCount)
            } else if number_u32(f[0]) is None || number_u32(f[1]) is None || number_u32(f[2])
                is None || number_u32(f[3]) is None || number_u32(f[4]) is None || number_u32(
                f[5],
            ) is None || number_u32(f[6]) is None || number_u32(f[7]) is None || number_u64(f[8])
                is None {
                Err(Error::BadNumber)
            } else if number_u32(f[0])->0 != 0 || number_u32(f[7])->0 != 0 {
                Err(Error::NonZeroSentinel)
            } else {
                Ok(
                    FrameView {
                        layout: number_u32(f[1])->0,
                        icons: seq![
                            number_u32(f[2])->0,
                            number_u32(f[3])->0,
                            number_u32(f[4])->0,
                            number_u32(f[5])->0,
                            number_u32(f[6])->0,
                        ],
                        timestamp: number_u64(f[8])->0,
                        game_version: f[9],
                        icon_text: f[10],
                        desc: tail[0],
                        payload: tail[1],
                    },
                )
            }
        }
    }

    /// What a blueprint string holds. The checksum is looked at before
    /// anything else of the text is.
    pub open spec fn parse(s: Seq<char>) -> Result<FrameView, Error> {
        match last_index_of(s, '"') {
            None => Err(Error::MissingHashDelimiter),
            Some(q) => {
                let body = trim(s.take(q));
                match parse_hex_digest(trim(s.skip(q + 1))) {
                    None => Err(Error::BadHashFormat),
                    Some(given) => if given != checksum(body) {
                        Err(Error::ChecksumMismatch)
                    } else if !(body.len() >= 10 && body.take(10) == prefix()) {
                        Err(Error::BadPrefix)
                    } else {
                        Self::parse_fields(body.skip(10))
                    },
                }
            },
        }
    }

    /// Whether the frame is one that a text can hold: it has five icons, none
    /// of its texts holds a comma, neither the description nor the payload
    /// holds a quote, and the payload does not end in white space.
    pub open spec fn wf(self) -> bool {
        &&& self.icons.len() == 5
        &&& has_no_comma(self.game_version)
        &&& has_no_comma(self.icon_text)
        &&& is_plain(self.desc)
        &&& is_plain(self.payload)
        &&& self.payload.len() > 0 ==> !is_whitespace(self.payload.last())
    }
}

/// Whether two digests are the same.
fn same_digest(a: &MD5Hash, b: &MD5Hash) -> (r: bool)
    ensures
        r == (a@ == b@),
{
    let mut i: usize = 0;
    while i < 16
        invariant
            i <= 16,
            forall|k: int| 0 <= k < i ==> a@[k] == b@[k],
        decreases 16 - i,
    {
        if a[i] != b[i] {
            return false;
        }
        i += 1;
    }
    assert(a@ =~= b@);
    true
}

/// The text of a part of a slice of characters.
fn text_of(chars: &[char], bounds: (usize, usize)) -> (r: String)
    requires
        bounds.0 <= bounds.1 <= chars.len(),
    ensures
        r@ == chars@.subrange(bounds.0 as int, bounds.1 as int),
{
    string_of(slice_subrange(chars, bounds.0, bounds.1))
}

impl Frame {
    /// Takes the fields of a frame apart: the part `from..to` of a text,
    /// which stands behind the prefix.
    fn parse_fields(chars: &[char], from: usize, to: usize) -> (r: Result<Self, Error>)
        requires
            from <= to <= chars.len(),
        ensures
            match r {
                Ok(f) => FrameView::parse_fields(chars@.subrange(from as int, to as int)) == Ok::<
                    FrameView,
                    Error,
                >(f@),
                Err(e) => FrameView::parse_fields(chars@.subrange(from as int, to as int)) == Err::<
                    FrameView,
                    Error,
                >(e),
            },
    {
        let f = split_range(chars, from, to, ',');
        if f.len() != 12 {
            return Err(Error::BadFieldCount);
        }
        let ghost fields = split(chars@.subrange(from as int, to as int), ',');
        proof {
            assert forall|k: int| 0 <= k < 12 implies fields[k] == chars@.subrange(
                f@[k].0 as int,
                f@[k].1 as int,
            ) by {}
        }
        let tail = split_range(chars, f[11].0, f[11].1, '"');
        if tail.len() != 2 {
            return Err(Error::BadFieldCount);
        }
        proof {
            let parts = split(fields[11], '"');
            assert forall|k: int| 0 <= k < 2 implies parts[k] == chars@.subrange(
                tail@[k].0 as int,
                tail@[k].1 as int,
            ) by {}
        }
        let zero1 = parse_u32(chars, f[0].0, f[0].1);
        let layout = parse_u32(chars, f[1].0, f[1].1);
        let icon0 = parse_u32(chars, f[2].0, f[2].1);
        let icon1 = parse_u32(chars, f[3].0, f[3].1);
        let icon2 = parse_u32(chars, f[4].0, f[4].1);
        let icon3 = parse_u32(chars, f[5].0, f[5].1);
        let icon4 = parse_u32(chars, f[6].0, f[6].1);
        let zero2 = parse_u32(chars, f[7].0, f[7].1);
        let timestamp = parse_u64(chars, f[8].0, f[8].1);
        match (zero1, layout, icon0, icon1, icon2, icon3, icon4, zero2, timestamp) {
            (
                Some(zero1),
                Some(layout),
                Some(icon0),
                Some(icon1),
                Some(icon2),
                Some(icon3),
                Some(icon4),
                Some(zero2),
                Some(timestamp),
            ) => {
                if zero1 != 0 || zero2 != 0 {
                    return Err(Error::NonZeroSentinel);
                }
                let icons: [u32; 5] = [icon0, icon1, icon2, icon3, icon4];
                let frame = Frame {
                    layout,
                    icons,
                    timestamp,
                    game_version: text_of(chars, f[9]),
                    icon_text: text_of(chars, f[10]),
                    desc: text_of(chars, tail[0]),
                    payload: text_of(chars, tail[1]),
                };
                Ok(frame)
            },
            _ => Err(Error::BadNumber),
        }
    }

    /// Takes a blueprint string apart.
    ///
    /// The checksum is looked at first: a text whose checksum does not fit
    /// fails before anything else of it is read. A frame that is read is
    /// well formed.
    pub fn parse(text: &str) -> (r: Result<Self, Error>)
        ensures
            match r {
                Ok(f) => FrameView::parse(text@) == Ok::<FrameView, Error>(f@) && f@.wf(),
                Err(e) => FrameView::parse(text@) == Err::<FrameView, Error>(e),
            },
    {
        proof {
            if FrameView::parse(text@) is Ok {
                lemma_parsed_frame_wf(text@);
            }
        }
        let all = chars_of(text);
        let chars = all.as_slice();
        let n = chars.len();
        let q = match rfind_char(chars, '"') {
            Some(q) => q,
            None => {
                return Err(Error::MissingHashDelimiter);
            },
        };
        let body = trim_range(chars, 0, q);
        let hash = trim_range(chars, q + 1, n);
        let given = match parse_hex(chars, hash.0, hash.1) {
            Some(d) => d,
            None => {
                return Err(Error::BadHashFormat);
            },
        };
        let body_text = text_of(chars, body);
        let ours = MD5::new(Algo::MD5F).process(body_text.as_str().as_bytes());
        if !same_digest(&given, &ours) {
            return Err(Error::ChecksumMismatch);
        }
        let start: [char; 10] = ['B', 'L', 'U', 'E', 'P', 'R', 'I', 'N', 'T', ':'];
        let ghost b = chars@.subrange(body.0 as int, body.1 as int);
        if !starts_with(chars, body.0, body.1, start.as_slice()) {
            proof {
                if b.len() >= 10 {
                    assert(b.take(10) =~= chars@.subrange(body.0 as int, body.0 + 10));
                }
            }
            return Err(Error::BadPrefix);
        }
        proof {
            assert(b.take(10) =~= chars@.subrange(body.0 as int, body.0 + 10));
            assert(b.skip(10) =~= chars@.subrange(body.0 + 10, body.1 as int));
        }
        Self::parse_fields(chars, body.0 + 10, body.1)
    }

    /// Appends a comma and a number in decimal, which is the field `k` of
    /// the frame.
    fn push_number(out: &mut Vec<char>, n: u64, Ghost(fields): Ghost<Seq<Seq<char>>>, k: usize)
        requires
            0 < k < fields.len(),
            fields[k as int] == decimal(n as nat),
        ensures
            forall|head: Seq<char>|
                old(out)@ == head + joined(fields, (k - 1) as nat) ==> final(out)@ == head
                    + joined(fields, k as nat),
    {
        out.push(',');
        push_decimal(out, n);
        assert forall|head: Seq<char>|
            old(out)@ == head + joined(fields, (k - 1) as nat) implies out@ == head + joined(
            fields,
            k as nat,
        ) by {}
    }

    /// Appends a comma and a text, which is the field `k` of the frame.
    fn push_field(out: &mut Vec<char>, text: &[char], Ghost(fields): Ghost<Seq<Seq<char>>>, k: usize)
        requires
            0 < k < fields.len(),
            fields[k as int] == text@,
        ensures
            forall|head: Seq<char>|
                old(out)@ == head + joined(fields, (k - 1) as nat) ==> final(out)@ == head
                    + joined(fields, k as nat),
    {
        out.push(',');
        push_all(out, text);
        assert forall|head: Seq<char>|
            old(out)@ == head + joined(fields, (k - 1) as nat) implies out@ == head + joined(
            fields,
            k as nat,
        ) by {}
    }

    /// Appends the text of the frame up to the quote that closes the payload.
    fn push_body(&self, out: &mut Vec<char>)
        ensures
            final(out)@ == old(out)@ + self@.body(),
    {
        let ghost fields = self@.fields();
        let ghost head = old(out)@ + prefix();
        let start: [char; 11] = ['B', 'L', 'U', 'E', 'P', 'R', 'I', 'N', 'T', ':', '0'];
        push_all(out, start.as_slice());
        assert(out@ =~= head + joined(fields, 0));
        Self::push_number(out, self.layout as u64, Ghost(fields), 1);
        Self::push_number(out, self.icons[0] as u64, Ghost(fields), 2);
        Self::push_number(out, self.icons[1] as u64, Ghost(fields), 3);
        Self::push_number(out, self.icons[2] as u64, Ghost(fields), 4);
        Self::push_number(out, self.icons[3] as u64, Ghost(fields), 5);
        Self::push_number(out, self.icons[4] as u64, Ghost(fields), 6);
        let zero: [char; 1] = ['0'];
        assert(zero@ =~= seq!['0']);
        Self::push_field(out, zero.as_slice(), Ghost(fields), 7);
        Self::push_number(out, self.timestamp, Ghost(fields), 8);
        let version = chars_of(self.game_version.as_str());
        Self::push_field(out, version.as_slice(), Ghost(fields), 9);
        let icon_text = chars_of(self.icon_text.as_str());
        Self::push_field(out, icon_text.as_slice(), Ghost(fields), 10);
        let mut last = chars_of(self.desc.as_str());
        last.push('"');
        let payload = chars_of(self.payload.as_str());
        push_all(&mut last, payload.as_slice());
        assert(last@ =~= self@.desc + seq!['"'] + self@.payload);
        Self::push_field(out, last.as_slice(), Ghost(fields), 11);
        assert(out@ == head + joined(fields, 11));
    }

    /// The blueprint string of the frame. The text of a well-formed frame is
    /// read again as the frame.
    pub fn into_text(&self) -> (r: String)
        ensures
            r@ == self@.text(),
            self@.wf() ==> FrameView::parse(r@) == Ok::<FrameView, Error>(self@),
    {
        proof {
            if self@.wf() {
                lemma_frame_roundtrip(self@);
            }
        }
        let mut out: Vec<char> = Vec::new();
        self.push_body(&mut out);
        let body = string_of(out.as_slice());
        let hash = MD5::new(Algo::MD5F).process(body.as_str().as_bytes());
        out.push('"');
        push_hex(&mut out, hash.as_slice());
        string_of(out.as_slice())
    }
}

/// A blueprint: what a blueprint string holds, with the payload decoded.
#[derive(Clone, Debug, PartialEq, Eq)]
pub struct Blueprint {
    /// The layout of the icons.
    pub layout: u32,
    /// The five icons, as icon numbers.
    pub icons: [u32; 5],
    /// When the blueprint was made.
    pub timestamp: u64,
    /// The version of the game that made the blueprint.
    pub game_version: String,
    /// The text beside the icons, with percent escapes.
    pub icon_text: String,
    /// The description, with percent escapes.
    pub desc: String,
    /// The payload.
    pub data: BlueprintData,
}

/// A blueprint as a mathematical value.
pub struct BlueprintView {
    pub layout: u32,
    pub icons: Seq<u32>,
    pub timestamp: u64,
    pub game_version: Seq<char>,
    pub icon_text: Seq<char>,
    pub desc: Seq<char>,
    pub data: BlueprintDataView,
}

impl View for Blueprint {
    type V = BlueprintView;

    open spec fn view(&self) -> BlueprintView {
        BlueprintView {
            layout: self.layout,
            icons: self.icons@,
            timestamp: self.timestamp,
            game_version: self.game_version@,
            icon_text: self.icon_text@,
            desc: self.desc@,
            data: self.data@,
        }
    }
}

/// What a payload in base64 holds: the binary payload decoded, and the bytes
/// that it was decoded from.
pub open spec fn decode_payload(payload: Seq<char>) -> Result<(BlueprintDataView, Seq<u8>), Error> {
    match base64_decoded(payload) {
        None => Err(Error::BadBase64),
        Some(stream) => match gunzipped(stream) {
            None => Err(Error::Decompression),
            Some(raw) => match BlueprintDataView::decode(raw) {
                Ok((data, _)) => Ok((data, raw)),
                Err(e) => Err(e),
            },
        },
    }
}

/// Whether a text is a payload in base64 that holds the given binary payload.
pub open spec fn is_payload_of(payload: Seq<char>, data: BlueprintDataView) -> bool {
    &&& forall|i: int| 0 <= i < payload.len() ==> is_base64_char(#[trigger] payload[i])
    &&& base64_decoded(payload) matches Some(stream)
    &&& gunzipped(stream) matches Some(raw)
    &&& data.encoding() == Ok::<Seq<u8>, Error>(raw)
}

/// The level at which a payload is compressed when a level is asked for: a
/// level above 9 counts as 9.
pub open spec fn level_of(level: u32) -> u32 {
    if level > 9 {
        9
    } else {
        level
    }
}

/// The level at which a payload is compressed when a level is asked for.
pub fn compression_level(level: u32) -> (r: u32)
    ensures
        r == level_of(level),
        r <= 9,
{
    if level > 9 {
        9
    } else {
        level
    }
}

impl BlueprintDataView {
    /// The compressed stream of the binary payload, at a level.
    ///
    /// There is none where the payload does not encode, and none where the
    /// stream is too long to be written as text in base64.
    pub open spec fn packed(self, level: u32) -> Result<Seq<u8>, Error> {
        match self.encoding() {
            Err(e) => Err(e),
            Ok(raw) => {
                let stream = gzipped(raw, level_of(level));
                if base64_fits(stream.len()) {
                    Ok(stream)
                } else {
                    Err(Error::PayloadTooLarge)
                }
            },
        }
    }
}

/// Writes a compressed stream as text in base64. Fails where the stream is
/// too long for its text to fit the machine, and nowhere else.
pub fn payload_text(stream: &[u8]) -> (r: Result<String, Error>)
    ensures
        match r {
            Ok(p) => {
                &&& base64_fits(stream@.len())
                &&& base64_decoded(p@) == Some(stream@)
                &&& forall|i: int| 0 <= i < p@.len() ==> is_base64_char(#[trigger] p@[i])
            },
            Err(e) => e == Error::PayloadTooLarge && !base64_fits(stream@.len()),
        },
{
    if stream.len() / 3 > (usize::MAX - 4) / 4 {
        return Err(Error::PayloadTooLarge);
    }
    Ok(base64_encode(stream))
}

impl BlueprintView {
    /// The frame of the blueprint around a payload in base64.
    pub open spec fn frame(self, payload: Seq<char>) -> FrameView {
        FrameView {
            layout: self.layout,
            icons: self.icons,
            timestamp: self.timestamp,
            game_version: self.game_version,
            icon_text: self.icon_text,
            desc: self.desc,
            payload,
        }
    }

    /// The blueprint that a frame holds around a binary payload.
    pub open spec fn of_frame(f: FrameView, data: BlueprintDataView) -> BlueprintView {
        BlueprintView {
            layout: f.layout,
            icons: f.icons,
            timestamp: f.timestamp,
            game_version: f.game_version,
            icon_text: f.icon_text,
            desc: f.desc,
            data,
        }
    }

    /// What a blueprint string holds: the blueprint, and the bytes of its
    /// binary payload.
    pub open spec fn decode(s: Seq<char>) -> Result<(BlueprintView, Seq<u8>), Error> {
        match FrameView::parse(s) {
            Err(e) => Err(e),
            Ok(f) => match decode_payload(f.payload) {
                Err(e) => Err(e),
                Ok((data, raw)) => Ok((Self::of_frame(f, data), raw)),
            },
        }
    }

    /// Whether a text is decoded as the blueprint.
    pub open spec fn is_read_from(self, s: Seq<char>) -> bool {
        Self::decode(s) matches Ok((v, _)) && v == self
    }

    /// Whether a text is a blueprint string of the blueprint: its frame,
    /// around some payload in base64 that holds its binary payload.
    pub open spec fn is_text_of(self, s: Seq<char>) -> bool {
        exists|payload: Seq<char>| #[trigger]
            is_payload_of(payload, self.data) && s == self.frame(payload).text()
    }

    /// Whether a text is the blueprint string of the blueprint with the
    /// payload compressed at a level: its frame, around a payload in base64
    /// that stands for the compressed stream of the binary payload.
    pub open spec fn is_text_at(self, s: Seq<char>, level: u32) -> bool {
        exists|payload: Seq<char>| #[trigger]
            is_payload_of(payload, self.data) && self.data.packed(level) == Ok::<Seq<u8>, Error>(
                base64_decoded(payload)->0,
            ) && s == self.frame(payload).text()
    }

    /// Whether the blueprint is one that a text can hold: it has five icons,
    /// none of its texts holds a comma, the description holds no quote, and
    /// the binary payload is well formed.
    pub open spec fn wf(self) -> bool {
        &&& self.icons.len() == 5
        &&& has_no_comma(self.game_version)
        &&& has_no_comma(self.icon_text)
        &&& is_plain(self.desc)
        &&& self.data.wf()
    }
}

impl Blueprint {
    /// The checksum of a text.
    pub fn hash(data: &str) -> (r: MD5Hash)
        ensures
            r@ == checksum(data@),
    {
        MD5::new(Algo::MD5F).process(data.as_bytes())
    }

    /// The checksum that a text of 32 hexadecimal digits stands for.
    pub fn hash_str_to_hash(d: &str) -> (r: Result<MD5Hash, Error>)
        ensures
            match r {
                Ok(h) => parse_hex_digest(d@) == Some(h@),
                Err(e) => parse_hex_digest(d@) is None && e == Error::BadHashFormat,
            },
    {
        let chars = chars_of(d);
        assert(chars@.subrange(0, chars@.len() as int) =~= chars@);
        match parse_hex(chars.as_slice(), 0, chars.len()) {
            Some(h) => Ok(h),
            None => Err(Error::BadHashFormat),
        }
    }

    /// Decodes a payload in base64: the binary payload, and the bytes that
    /// it was decoded from.
    pub fn unpack_data(b64data: &str) -> (r: Result<(BlueprintData, Vec<u8>), Error>)
        ensures
            match r {
                Ok((data, raw)) => decode_payload(b64data@) == Ok::<
                    (BlueprintDataView, Seq<u8>),
                    Error,
                >((data@, raw@)),
                Err(e) => decode_payload(b64data@) == Err::<(BlueprintDataView, Seq<u8>), Error>(
                    e,
                ),
            },
    {
        let stream = match base64_decode(b64data) {
            Some(z) => z,
            None => {
                return Err(Error::BadBase64);
            },
        };
        let raw = match inflate(stream.as_slice()) {
            Some(raw) => raw,
            None => {
                return Err(Error::Decompression);
            },
        };
        let data = BlueprintData::new_from_buf(raw.as_slice())?;
        Ok((data, raw))
    }

    /// Encodes the binary payload as text in base64, compressed at the given
    /// level; a level above 9 counts as 9.
    ///
    /// Fails where a station does not go into the block that its building
    /// declares, and where the compressed payload is too long to be written
    /// as text. Succeeds everywhere else.
    pub fn pack_data(&self, level: u32) -> (r: Result<String, Error>)
        ensures
            match r {
                Ok(p) => {
                    &&& self@.data.packed(level) matches Ok(stream)
                    &&& base64_decoded(p@) == Some(stream)
                    &&& is_payload_of(p@, self@.data)
                },
                Err(e) => self@.data.packed(level) == Err::<Seq<u8>, Error>(e),
            },
    {
        let raw = self.data.write()?;
        let stream = deflate(raw.as_slice(), compression_level(level));
        payload_text(stream.as_slice())
    }

    /// The blueprint that a frame and a binary payload make.
    pub fn from_frame(frame: Frame, data: BlueprintData) -> (r: Self)
        ensures
            r@ == BlueprintView::of_frame(frame@, data@),
    {
        Blueprint {
            layout: frame.layout,
            icons: frame.icons,
            timestamp: frame.timestamp,
            game_version: frame.game_version,
            icon_text: frame.icon_text,
            desc: frame.desc,
            data,
        }
    }

    /// Decodes a blueprint string. A blueprint that is decoded is well
    /// formed.
    pub fn new(data: &str) -> (r: Result<Self, Error>)
        ensures
            match r {
                Ok(bp) => BlueprintView::decode(data@) matches Ok((v, _)) && v == bp@ && bp@.wf(),
                Err(e) => BlueprintView::decode(data@) == Err::<(BlueprintView, Seq<u8>), Error>(
                    e,
                ),
            },
    {
        let (me, _) = Self::new_with_raw_bp(data)?;
        Ok(me)
    }

    /// Decodes a blueprint string, and gives the bytes of the binary payload
    /// beside the blueprint. A blueprint that is decoded is well formed.
    pub fn new_with_raw_bp(data: &str) -> (r: Result<(Self, Vec<u8>), Error>)
        ensures
            match r {
                Ok((bp, raw)) => BlueprintView::decode(data@) == Ok::<
                    (BlueprintView, Seq<u8>),
                    Error,
                >((bp@, raw@)) && bp@.wf(),
                Err(e) => BlueprintView::decode(data@) == Err::<(BlueprintView, Seq<u8>), Error>(
                    e,
                ),
            },
    {
        proof {
            if BlueprintView::decode(data@) is Ok {
                lemma_decoded_blueprint_wf(data@);
            }
        }
        let frame = Frame::parse(data)?;
        let (payload, raw) = Self::unpack_data(frame.payload.as_str())?;
        Ok((Self::from_frame(frame, payload), raw))
    }

    /// The blueprint string of the blueprint, with the payload compressed at
    /// the level that the game uses. The text of a well-formed blueprint is
    /// decoded again as the blueprint.
    pub fn into_bp_string(&self) -> (r: Result<String, Error>)
        ensures
            match r {
                Ok(s) => {
                    &&& self@.is_text_at(s@, 6)
                    &&& self@.is_text_of(s@)
                    &&& self@.wf() ==> self@.is_read_from(s@)
                },
                Err(e) => self@.data.packed(6) == Err::<Seq<u8>, Error>(e),
            },
    {
        self.into_bp_string_level(6)
    }

    /// The blueprint string of the blueprint, with the payload compressed at
    /// the given level; a level above 9 counts as 9. The text of a
    /// well-formed blueprint is decoded again as the blueprint.
    pub fn into_bp_string_level(&self, level: u32) -> (r: Result<String, Error>)
        ensures
            match r {
                Ok(s) => {
                    &&& self@.is_text_at(s@, level)
                    &&& self@.is_text_of(s@)
                    &&& self@.wf() ==> self@.is_read_from(s@)
                },
                Err(e) => self@.data.packed(level) == Err::<Seq<u8>, Error>(e),
            },
    {
        let payload = self.pack_data(level)?;
        let frame = Frame {
            layout: self.layout,
            icons: self.icons,
            timestamp: self.timestamp,
            game_version: self.game_version.clone(),
            icon_text: self.icon_text.clone(),
            desc: self.desc.clone(),
            payload,
        };
        let text = frame.into_text();
        proof {
            if self@.wf() {
                lemma_blueprint_roundtrip(self@, text@);
            }
        }
        Ok(text)
    }

    /// The description, with its percent escapes resolved.
    pub fn get_description(&self) -> (r: Result<String, Error>)
        ensures
            match r {
                Ok(s) => url_decoded(self@.desc) == Some(s@),
                Err(e) => url_decoded(self@.desc) is None && e == Error::BadEscape,
            },
    {
        match url_decode(self.desc.as_str()) {
            Some(s) => Ok(s),
            None => Err(Error::BadEscape),
        }
    }

    /// Sets the text beside the icons, which is kept with percent escapes.
    /// The text that was set is the one that is read back.
    pub fn set_icon_text(&mut self, text: &str)
        ensures
            final(self)@ == (BlueprintView {
                icon_text: percent_encoded(encode_utf8(text@)),
                ..old(self)@
            }),
            url_decoded(final(self)@.icon_text) == Some(text@),
    {
        self.icon_text = url_encode(text);
    }

    /// The text beside the icons, with its percent escapes resolved.
    pub fn get_icon_text(&self) -> (r: Result<String, Error>)
        ensures
            match r {
                Ok(s) => url_decoded(self@.icon_text) == Some(s@),
                Err(e) => url_decoded(self@.icon_text) is None && e == Error::BadEscape,
            },
    {
        match url_decode(self.icon_text.as_str()) {
            Some(s) => Ok(s),
            None => Err(Error::BadEscape),
        }
    }
}

} // verus!
