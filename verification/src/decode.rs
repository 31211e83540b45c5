//! Message decoding: turns the bytes one bounded read actually returned into
//! at most one emitted line. Only the reported byte count is decoded, never
//! the read buffer's trailing padding; bytes that are not valid UTF-8 are
//! noise and emit nothing.

use vstd::prelude::*;

verus! {

/// What `String::from_utf8` makes of a byte sequence: the decoded characters
/// when the bytes are valid UTF-8, `None` otherwise.
pub uninterp spec fn utf8_decoded(bytes: Seq<u8>) -> Option<Seq<char>>;

/// Relies on String::from_utf8: it returns `Ok` exactly when the bytes are
/// valid UTF-8, and the decoded characters depend on the bytes alone.
#[verifier::external_body]
fn utf8_to_string(bytes: Vec<u8>) -> (r: Option<String>)
    ensures
        r is Some <==> utf8_decoded(bytes@) is Some,
        r matches Some(s) ==> Some(s@) == utf8_decoded(bytes@),
{
    String::from_utf8(bytes).ok()
}

/// Decodes the `count` bytes a read reported out of its buffer: the decoded
/// text when they are valid UTF-8, `None` — silently, never an error — when
/// they are not.
pub fn decode_message(buf: &Vec<u8>, count: usize) -> (r: Option<String>)
    requires
        count <= buf@.len(),
    ensures
        r is Some <==> utf8_decoded(buf@.take(count as int)) is Some,
        r matches Some(s) ==> Some(s@) == utf8_decoded(buf@.take(count as int)),
{
    let mut received: Vec<u8> = Vec::new();
    let mut i: usize = 0;
    while i < count
        invariant
            0 <= i <= count,
            count <= buf@.len(),
            received@ == buf@.take(i as int),
        decreases count - i,
    {
        received.push(buf[i]);
        assert(received@ =~= buf@.take(i + 1 as int));
        i = i + 1;
    }
    utf8_to_string(received)
}

/// The lines one read emits: exactly the decoded text when the bytes read
/// decode as UTF-8, nothing otherwise.
pub open spec fn spec_read_emits(bytes: Seq<u8>) -> Seq<Seq<char>> {
    match utf8_decoded(bytes) {
        Some(text) => seq![text],
        None => Seq::empty(),
    }
}

/// The lines to emit for one completed read of `count` bytes: one line
/// holding the decoded text, or none when the bytes are not text.
pub fn emit_lines_for_read(buf: &Vec<u8>, count: usize) -> (lines: Vec<String>)
    requires
        count <= buf@.len(),
    ensures
        lines@.map_values(|s: String| s@) == spec_read_emits(buf@.take(count as int)),
        utf8_decoded(buf@.take(count as int)) is Some ==> lines@.len() == 1 && Some(lines@[0]@)
            == utf8_decoded(buf@.take(count as int)),
        utf8_decoded(buf@.take(count as int)) is None ==> lines@.len() == 0,
{
    let mut lines: Vec<String> = Vec::new();
    match decode_message(buf, count) {
        Some(text) => {
            lines.push(text);
        },
        None => {},
    }
    assert(lines@.map_values(|s: String| s@) =~= spec_read_emits(buf@.take(count as int)));
    lines
}

/// The lines a run of sequential reads emits, in delivery order.
pub open spec fn spec_emits(reads: Seq<Seq<u8>>) -> Seq<Seq<char>>
    decreases reads.len(),
{
    if reads.len() == 0 {
        Seq::empty()
    } else {
        spec_read_emits(reads[0]) + spec_emits(reads.drop_first())
    }
}

/// Law: under sequential delivery, each repetition of one decodable
/// datagram emits exactly one line with its decoded text — one line per
/// message, no concatenation across messages, no message dropped.
pub proof fn lemma_repeated_datagrams(bytes: Seq<u8>, repetitions: nat)
    requires
        utf8_decoded(bytes) is Some,
    ensures
        spec_emits(Seq::new(repetitions, |i: int| bytes)) =~= Seq::new(
            repetitions,
            |i: int| utf8_decoded(bytes).unwrap(),
        ),
    decreases repetitions,
{
    let reads = Seq::new(repetitions, |i: int| bytes);
    if repetitions > 0 {
        assert(reads.drop_first() =~= Seq::new((repetitions - 1) as nat, |i: int| bytes));
        lemma_repeated_datagrams(bytes, (repetitions - 1) as nat);
    }
}

} // verus!
