//! Cryptographic digests of files, their hex text and their spoken form.

use crate::errors::{Error, ErrorView};
use crate::steps::{
    failed, AfterRead, AfterReadView, Next, NextView, Notice, NoticeView, Step, StepView, Value,
    ValueView,
};
use crate::{texts, Context};
use sha2::{Digest, Sha256};
use vstd::prelude::*;

verus! {

/// The sixteen lower-case hex digits, in order of value.
pub open spec fn hex_digits() -> Seq<char> {
    seq!['0', '1', '2', '3', '4', '5', '6', '7', '8', '9', 'a', 'b', 'c', 'd', 'e', 'f']
}

/// Lower-case hex text of `bytes`: two digits per byte, high half first.
pub open spec fn hex_text(bytes: Seq<u8>) -> Seq<char> {
    Seq::new(
        2 * bytes.len(),
        |i: int|
            if i % 2 == 0 {
                hex_digits()[bytes[i / 2] as int / 16]
            } else {
                hex_digits()[bytes[i / 2] as int % 16]
            },
    )
}

/// Value of one hex digit given as a byte of text, in either case.
pub open spec fn hex_value(c: u8) -> Option<int> {
    if 0x30 <= c <= 0x39 {
        Some(c as int - 0x30)
    } else if 0x61 <= c <= 0x66 {
        Some(c as int - 0x61 + 10)
    } else if 0x41 <= c <= 0x46 {
        Some(c as int - 0x41 + 10)
    } else {
        None
    }
}

/// Position of the first byte at or after `from` that is no hex digit.
pub open spec fn first_non_hex(text: Seq<u8>, from: int) -> Option<int>
    decreases text.len() - from,
{
    if from < 0 || from >= text.len() {
        None
    } else if hex_value(text[from]) is None {
        Some(from)
    } else {
        first_non_hex(text, from + 1)
    }
}

/// Why a text is not the hex form of a byte string of the wanted length.
#[derive(Debug, Clone, Copy, PartialEq, Eq, Structural)]
pub enum HexError {
    /// The byte at `index` of the text is no hex digit; `c` is that byte.
    InvalidHexCharacter { c: char, index: usize },
    /// The text has an odd number of bytes.
    OddLength,
    /// The text has an even number of bytes, but not two per wanted byte.
    InvalidStringLength,
}

/// What decoding `text` into exactly `len` bytes gives.
///
/// The length of the text is judged first, then its digits from left to right.
pub open spec fn decode_hex(text: Seq<u8>, len: nat) -> Result<Seq<u8>, HexError> {
    if text.len() % 2 != 0 {
        Err(HexError::OddLength)
    } else if text.len() / 2 != len {
        Err(HexError::InvalidStringLength)
    } else {
        match first_non_hex(text, 0) {
            Some(index) => Err(
                HexError::InvalidHexCharacter { c: text[index] as char, index: index as usize },
            ),
            None => Ok(
                Seq::new(
                    len,
                    |i: int|
                        (16 * hex_value(text[2 * i]).unwrap() + hex_value(
                            text[2 * i + 1],
                        ).unwrap()) as u8,
                ),
            ),
        }
    }
}

/// Every hex digit is an ASCII character and stands for its own position.
proof fn lemma_hex_digit(n: int)
    requires
        0 <= n < 16,
    ensures
        hex_value(hex_digits()[n] as u8) == Some(n),
        '\0' <= hex_digits()[n] <= '\u{7f}',
{
}

/// The first byte that is no hex digit is one, and no byte before it is.
pub proof fn lemma_first_non_hex(text: Seq<u8>, from: int)
    requires
        0 <= from,
    ensures
        match first_non_hex(text, from) {
            Some(index) => from <= index < text.len() && hex_value(text[index]) is None
                && forall|i: int| from <= i < index ==> hex_value(#[trigger] text[i]) is Some,
            None => forall|i: int| from <= i < text.len() ==> hex_value(#[trigger] text[i]) is Some,
        },
    decreases text.len() - from,
{
    if from < text.len() && hex_value(text[from]) is Some {
        lemma_first_non_hex(text, from + 1);
    }
}

/// Decoding the hex text of any bytes gives those bytes back.
pub proof fn lemma_hex_round_trip(bytes: Seq<u8>)
    ensures
        decode_hex(vstd::utf8::encode_utf8(hex_text(bytes)), bytes.len()) matches Ok(back)
            && back == bytes,
{
    let chars = hex_text(bytes);
    assert forall|i: int| 0 <= i < chars.len() implies '\0' <= #[trigger] chars[i] <= '\u{7f}' by {
        lemma_hex_digit(bytes[i / 2] as int / 16);
        lemma_hex_digit(bytes[i / 2] as int % 16);
    }
    vstd::utf8::is_ascii_chars_encode_utf8(chars);
    let text = vstd::utf8::encode_utf8(chars);
    assert forall|i: int| 0 <= i < text.len() implies hex_value(#[trigger] text[i]) is Some by {
        lemma_hex_digit(bytes[i / 2] as int / 16);
        lemma_hex_digit(bytes[i / 2] as int % 16);
        assert(text[i] == chars[i] as u8);
    }
    lemma_first_non_hex(text, 0);
    let back = decode_hex(text, bytes.len())->Ok_0;
    assert forall|i: int| 0 <= i < bytes.len() implies back[i] == bytes[i] by {
        lemma_hex_digit(bytes[i] as int / 16);
        lemma_hex_digit(bytes[i] as int % 16);
        assert(text[2 * i] == chars[2 * i] as u8);
        assert(text[2 * i + 1] == chars[2 * i + 1] as u8);
    }
    assert(back =~= bytes);
}

/// Names the SHA-256 digest of `data`, as `sha2` computes it.
pub uninterp spec fn sha256(data: Seq<u8>) -> Seq<u8>;

/// Calls `sha2::Sha256::digest`. Trusted: the 32 bytes returned are the
/// SHA-256 digest of `data`, which depends on `data` alone.
#[verifier::external_body]
fn sha256_digest(data: &[u8]) -> (digest: [u8; 32])
    ensures
        digest@ == sha256(data@),
{
    Sha256::digest(data).into()
}

/// Calls `hex::encode`. Trusted: the result holds two lower-case hex digits
/// for each byte of `data`, in order, the high half of a byte first.
#[verifier::external_body]
fn hex_encode(data: &[u8]) -> (text: String)
    ensures
        text@ == hex_text(data@),
{
    hex::encode(data)
}

/// Calls `hex::decode_to_slice`. Trusted: it first rejects a text of odd
/// length, then one whose length is not twice that of `out`, then reads the
/// digits from left to right and stops at the first byte that is no hex
/// digit; otherwise it fills `out` with the decoded bytes.
#[verifier::external_body]
fn hex_decode_to_slice(text: &[u8], out: &mut [u8; 32]) -> (r: Result<(), HexError>)
    ensures
        r is Ok ==> (decode_hex(text@, 32) matches Ok(bytes) && bytes == final(out)@),
        r matches Err(e) ==> (decode_hex(text@, 32) matches Err(why) && why == e),
{
    match hex::decode_to_slice(text, out) {
        Ok(()) => Ok(()),
        Err(hex::FromHexError::InvalidHexCharacter { c, index }) => Err(
            HexError::InvalidHexCharacter { c, index },
        ),
        Err(hex::FromHexError::OddLength) => Err(HexError::OddLength),
        Err(hex::FromHexError::InvalidStringLength) => Err(HexError::InvalidStringLength),
    }
}

/// The output of SHA-256.
#[derive(Debug, Clone, Copy)]
pub struct Sha256Sum([u8; 32]);

impl View for Sha256Sum {
    type V = Seq<u8>;

    closed spec fn view(&self) -> Seq<u8> {
        self.0@
    }
}

/// The bytes of the digest that stands in for a real one during a dry run.
pub open spec fn dummy_bytes() -> Seq<u8> {
    seq![
        0xab, 0xad, 0xde, 0xca, 0xfc, 0x0f, 0xfe, 0xe1,
        0xab, 0xad, 0xde, 0xca, 0xfc, 0x0f, 0xfe, 0xe2,
        0xab, 0xad, 0xde, 0xca, 0xfc, 0x0f, 0xfe, 0xe3,
        0xab, 0xad, 0xde, 0xca, 0xfc, 0x0f, 0xfe, 0xe4,
    ]
}

impl PartialEq for Sha256Sum {
    /// Byte-wise comparison.
    fn eq(&self, other: &Self) -> (same: bool) {
        let mut i: usize = 0;
        while i < 32
            invariant
                0 <= i <= 32,
                forall|j: int| 0 <= j < i ==> self.0@[j] == other.0@[j],
            decreases 32 - i,
        {
            if self.0[i] != other.0[i] {
                return false;
            }
            i = i + 1;
        }
        assert(self.0@ =~= other.0@);
        true
    }
}

impl Eq for Sha256Sum {

}

impl vstd::std_specs::cmp::PartialEqSpecImpl for Sha256Sum {
    open spec fn obeys_eq_spec() -> bool {
        true
    }

    open spec fn eq_spec(&self, other: &Self) -> bool {
        self@ == other@
    }
}

impl Sha256Sum {
    /// A digest has 32 bytes.
    pub proof fn lemma_len(self)
        ensures
            self@.len() == 32,
    {
    }

    /// Two digests with the same bytes are the same digest.
    pub proof fn lemma_same_bytes(self, other: Self)
        requires
            self@ == other@,
        ensures
            self == other,
    {
        assert(self.0 =~= other.0);
    }

    /// Reading back the hex text of a digest gives the same digest.
    pub proof fn lemma_hex_round_trip(self)
        ensures
            Self::spec_from_hex(hex_text(self@)) matches Ok(back) && back == self@,
    {
        lemma_hex_round_trip(self@);
    }

    /// Whatever was hashed, reading back the hex text of its digest gives
    /// what hashing it again gives.
    pub proof fn lemma_computed_hex_round_trip(self, content: Seq<u8>)
        requires
            self@ == sha256(content),
        ensures
            Self::spec_from_hex(hex_text(sha256(content))) matches Ok(back) && back == sha256(
                content,
            ),
    {
        lemma_hex_round_trip(self@);
    }

    /// What [`Sha256Sum::from_hex`] gives for a text of these characters.
    pub open spec fn spec_from_hex(hex: Seq<char>) -> Result<Seq<u8>, HexError> {
        decode_hex(vstd::utf8::encode_utf8(hex), 32)
    }

    /// The placeholder digest of dry runs. It is the digest of no known file.
    pub fn dummy() -> (digest: Self)
        ensures
            digest@ == dummy_bytes(),
    {
        let digest = Sha256Sum(
            [
                0xab, 0xad, 0xde, 0xca, 0xfc, 0x0f, 0xfe, 0xe1,
                0xab, 0xad, 0xde, 0xca, 0xfc, 0x0f, 0xfe, 0xe2,
                0xab, 0xad, 0xde, 0xca, 0xfc, 0x0f, 0xfe, 0xe3,
                0xab, 0xad, 0xde, 0xca, 0xfc, 0x0f, 0xfe, 0xe4,
            ],
        );
        assert(digest@ =~= dummy_bytes());
        digest
    }

    /// Wraps 32 bytes that are already known to be a digest.
    pub fn from_bytes(bytes: [u8; 32]) -> (digest: Self)
        ensures
            digest@ == bytes@,
    {
        Sha256Sum(bytes)
    }

    /// The 32 bytes of the digest.
    pub fn as_bytes(&self) -> (bytes: &[u8; 32])
        ensures
            bytes@ == self@,
    {
        &self.0
    }

    /// Hashes `data`.
    pub fn compute(data: &[u8]) -> (digest: Self)
        ensures
            digest@ == sha256(data@),
    {
        Sha256Sum(sha256_digest(data))
    }

    /// Reads a digest from its hex text, in either case.
    ///
    /// Fails unless the text is exactly 64 hex digits.
    pub fn from_hex(hex: &str) -> (r: Result<Self, HexError>)
        ensures
            r matches Ok(digest) ==> (Self::spec_from_hex(hex@) matches Ok(bytes) && bytes
                == digest@),
            r matches Err(e) ==> (Self::spec_from_hex(hex@) matches Err(why) && why == e),
    {
        let mut bytes = [0u8; 32];
        match hex_decode_to_slice(hex.as_bytes(), &mut bytes) {
            Ok(()) => Ok(Sha256Sum(bytes)),
            Err(e) => Err(e),
        }
    }

    /// The digest as 64 lower-case hex digits.
    pub fn to_hex(&self) -> (text: String)
        ensures
            text@ == hex_text(self@),
    {
        hex_encode(self.0.as_slice())
    }
}

/// What stands before the word at position `index` of a mnemonic: four
/// spaces where it opens a line, after a line break unless it is the very
/// first word, and one space elsewhere.
pub open spec fn word_lead(index: int) -> Seq<char> {
    if index % 4 != 0 {
        seq![' ']
    } else if index > 0 {
        seq!['\n', ' ', ' ', ' ', ' ']
    } else {
        seq![' ', ' ', ' ', ' ']
    }
}

/// The words of a mnemonic, each behind its lead, without the closing line
/// break.
pub open spec fn mnemonic_words_text(words: Seq<Seq<char>>) -> Seq<char>
    decreases words.len(),
{
    if words.len() == 0 {
        seq![]
    } else {
        mnemonic_words_text(words.drop_last()) + word_lead(words.len() - 1) + words.last()
    }
}

/// A mnemonic as it is shown: four words to a line, each line indented by
/// four spaces, one space between the words of a line, every line closed by
/// a line break. A mnemonic of no words is one empty line.
pub open spec fn mnemonic_text(words: Seq<Seq<char>>) -> Seq<char> {
    mnemonic_words_text(words) + seq!['\n']
}

/// Past the first line, the words of a mnemonic are laid out as the first
/// four, a line break, and the rest laid out by themselves.
proof fn lemma_words_text_splits(words: Seq<Seq<char>>)
    requires
        words.len() > 4,
    ensures
        mnemonic_words_text(words) == mnemonic_words_text(words.take(4)) + seq!['\n']
            + mnemonic_words_text(words.skip(4)),
    decreases words.len(),
{
    let rest = words.skip(4);
    let head = words.take(4);
    assert(rest.drop_last() =~= words.drop_last().skip(4));
    assert(rest.last() == words.last());
    if words.len() == 5 {
        assert(words.drop_last() =~= head);
        assert(rest.drop_last() =~= Seq::<Seq<char>>::empty());
        assert(mnemonic_words_text(rest.drop_last()) =~= seq![]);
        assert(mnemonic_words_text(rest) =~= word_lead(0) + words.last());
        assert(mnemonic_words_text(words) =~= mnemonic_words_text(head) + seq!['\n']
            + mnemonic_words_text(rest));
    } else {
        lemma_words_text_splits(words.drop_last());
        assert(words.drop_last().take(4) =~= head);
        assert(word_lead(words.len() - 1) == word_lead(rest.len() - 1));
        assert(mnemonic_words_text(words) =~= mnemonic_words_text(head) + seq!['\n']
            + mnemonic_words_text(rest));
    }
}

/// A mnemonic is shown four words to a line: one of more than four words as
/// its first four words followed by the rest shown by itself, one of up to
/// four words as a single line.
pub proof fn lemma_mnemonic_lines(words: Seq<Seq<char>>)
    ensures
        words.len() > 4 ==> mnemonic_text(words) == mnemonic_text(words.take(4)) + mnemonic_text(
            words.skip(4),
        ),
        words.len() == 0 ==> mnemonic_text(words) == seq!['\n'],
        words.len() == 1 ==> mnemonic_text(words) == seq![' ', ' ', ' ', ' '] + words[0]
            + seq!['\n'],
        words.len() == 2 ==> mnemonic_text(words) == seq![' ', ' ', ' ', ' '] + words[0]
            + seq![' '] + words[1] + seq!['\n'],
        words.len() == 3 ==> mnemonic_text(words) == seq![' ', ' ', ' ', ' '] + words[0]
            + seq![' '] + words[1] + seq![' '] + words[2] + seq!['\n'],
        words.len() == 4 ==> mnemonic_text(words) == seq![' ', ' ', ' ', ' '] + words[0]
            + seq![' '] + words[1] + seq![' '] + words[2] + seq![' '] + words[3] + seq!['\n'],
{
    if words.len() > 4 {
        lemma_words_text_splits(words);
        assert(mnemonic_text(words) =~= mnemonic_text(words.take(4)) + mnemonic_text(
            words.skip(4),
        ));
    } else {
        reveal_with_fuel(mnemonic_words_text, 5);
        if words.len() == 0 {
            assert(mnemonic_text(words) =~= seq!['\n']);
        } else if words.len() == 1 {
            assert(mnemonic_text(words) =~= seq![' ', ' ', ' ', ' '] + words[0] + seq!['\n']);
        } else if words.len() == 2 {
            assert(mnemonic_text(words) =~= seq![' ', ' ', ' ', ' '] + words[0] + seq![' ']
                + words[1] + seq!['\n']);
        } else if words.len() == 3 {
            assert(mnemonic_text(words) =~= seq![' ', ' ', ' ', ' '] + words[0] + seq![' ']
                + words[1] + seq![' '] + words[2] + seq!['\n']);
        } else {
            assert(mnemonic_text(words) =~= seq![' ', ' ', ' ', ' '] + words[0] + seq![' ']
                + words[1] + seq![' '] + words[2] + seq![' '] + words[3] + seq!['\n']);
        }
    }
}

/// Prints a BIP39 mnemonic phrase onto the end of `out`.
///
/// The phrase is split across multiple lines, with each line indented by 4
/// spaces and including up to 4 words.
pub fn print_bip39_mnemonic(out: &mut String, mnemonic: &[&str])
    ensures
        final(out)@ == old(out)@ + mnemonic_text(texts(mnemonic@)),
{
    let ghost words = texts(mnemonic@);
    let mut i: usize = 0;
    assert(words.take(0) =~= seq![]);
    assert(out@ =~= old(out)@ + mnemonic_words_text(words.take(0)));
    while i < mnemonic.len()
        invariant
            0 <= i <= mnemonic.len(),
            words == texts(mnemonic@),
            out@ == old(out)@ + mnemonic_words_text(words.take(i as int)),
        decreases mnemonic.len() - i,
    {
        let ghost before = out@;
        if i % 4 == 0 {
            if i > 0 {
                out.append("\n");
            }
            out.append("    ");
        } else {
            out.append(" ");
        }
        out.append(mnemonic[i]);
        proof {
            reveal_strlit("\n");
            reveal_strlit("    ");
            reveal_strlit(" ");
            let upto = words.take(i + 1);
            assert(upto.drop_last() =~= words.take(i as int));
            assert(upto.last() == mnemonic@[i as int]@);
            assert(out@ =~= before + word_lead(i as int) + mnemonic@[i as int]@);
            assert(out@ =~= old(out)@ + mnemonic_words_text(upto));
        }
        i = i + 1;
    }
    out.append("\n");
    proof {
        reveal_strlit("\n");
        assert(words.take(i as int) =~= words);
        assert(out@ =~= old(out)@ + mnemonic_text(words));
    }
}

/// How finding the digest of `file` begins.
///
/// A dry run does not read the file: it says so and gives the placeholder
/// digest. Otherwise the host is asked for the content of the file.
pub open spec fn file_digest_step(dry_run: bool, file: Seq<char>) -> StepView {
    if dry_run {
        StepView {
            notices: seq![NoticeView::NotComputingDigest { file }],
            next: NextView::Finished(Ok(ValueView::Digest(dummy_bytes()))),
        }
    } else {
        StepView { notices: seq![], next: NextView::ReadFile(file, AfterReadView::Digest) }
    }
}

/// How a step that shows `digest` as the digest of `file` ends.
pub open spec fn digest_printed(file: Seq<char>, digest: Seq<u8>) -> StepView {
    StepView {
        notices: seq![NoticeView::FileDigest { file, digest }, NoticeView::Blank],
        next: NextView::Finished(Ok(ValueView::Done)),
    }
}

/// How showing the digest of `file` begins.
pub open spec fn print_file_digest_step(dry_run: bool, file: Seq<char>) -> StepView {
    if dry_run {
        StepView {
            notices: seq![
                NoticeView::NotComputingDigest { file },
                NoticeView::FileDigest { file, digest: dummy_bytes() },
                NoticeView::Blank,
            ],
            next: NextView::Finished(Ok(ValueView::Done)),
        }
    } else {
        StepView { notices: seq![], next: NextView::ReadFile(file, AfterReadView::Print { file }) }
    }
}

/// How a step that holds `digest`, the digest of `file`, against `expected`
/// ends. The digest is shown either way. Equal bytes are success, and give
/// the file back; anything else is a failure that names the expected digest
/// and the file.
pub open spec fn digest_checked(file: Seq<char>, digest: Seq<u8>, expected: Seq<u8>) -> StepView {
    if digest == expected {
        StepView {
            notices: seq![
                NoticeView::FileDigest { file, digest },
                NoticeView::MatchesExpected,
                NoticeView::Blank,
            ],
            next: NextView::Finished(Ok(ValueView::Verified { file })),
        }
    } else {
        StepView {
            notices: seq![NoticeView::FileDigest { file, digest }],
            next: NextView::Finished(
                Err(ErrorView::DigestMismatch { expected, actual: digest, file }),
            ),
        }
    }
}

/// How checking the digest of `file` against `expected` begins.
///
/// A dry run shows what a check that succeeds shows, with the placeholder
/// digest, holds nothing against `expected`, and succeeds. Otherwise the
/// host is asked for the content of the file.
pub open spec fn check_file_digest_step(dry_run: bool, file: Seq<char>, expected: Seq<u8>) -> StepView {
    if dry_run {
        StepView {
            notices: seq![
                NoticeView::Blank,
                NoticeView::NotComputingDigest { file },
                NoticeView::FileDigest { file, digest: dummy_bytes() },
                NoticeView::MatchesExpected,
                NoticeView::Blank,
            ],
            next: NextView::Finished(Ok(ValueView::Verified { file })),
        }
    } else {
        StepView {
            notices: seq![NoticeView::Blank],
            next: NextView::ReadFile(file, AfterReadView::Check { file, expected }),
        }
    }
}

/// How checking the digest of `file` against a digest given as hex text
/// begins: a text that is no digest fails the step before anything else,
/// dry run or not.
pub open spec fn check_file_hex_digest_step(
    dry_run: bool,
    file: Seq<char>,
    expected_hex: Seq<char>,
) -> StepView {
    match Sha256Sum::spec_from_hex(expected_hex) {
        Ok(expected) => check_file_digest_step(dry_run, file, expected),
        Err(why) => failed(ErrorView::MalformedInput { why }),
    }
}

/// How a step goes on once the host has tried to read its file.
pub open spec fn after_read_step(after: AfterReadView, read: Result<Seq<u8>, Seq<char>>) -> StepView {
    match read {
        Err(reason) => failed(ErrorView::Filesystem { reason }),
        Ok(content) => match after {
            AfterReadView::Digest => StepView {
                notices: seq![],
                next: NextView::Finished(Ok(ValueView::Digest(sha256(content)))),
            },
            AfterReadView::Print { file } => digest_printed(file, sha256(content)),
            AfterReadView::Check { file, expected } => digest_checked(
                file,
                sha256(content),
                expected,
            ),
        },
    }
}

/// The plain values of what the host says of a file it was asked to read.
pub open spec fn read_view(read: Result<Vec<u8>, String>) -> Result<Seq<u8>, Seq<char>> {
    match read {
        Ok(content) => Ok(content@),
        Err(reason) => Err(reason@),
    }
}

impl<'a> Step<'a> {
    /// Ends a step by showing `digest` as the digest of `file`.
    pub fn digest_printed(file: &'a str, digest: Sha256Sum) -> (step: Self)
        ensures
            step@ == digest_printed(file@, digest@),
    {
        let step = Step {
            notices: vec![Notice::FileDigest { file, digest }, Notice::Blank],
            next: Next::Finished(Ok(Value::Done)),
        };
        assert(step@.notices =~= digest_printed(file@, digest@).notices);
        step
    }

    /// Ends a step by showing `digest` as the digest of `file` and holding it
    /// against `expected`.
    pub fn digest_checked(file: &'a str, digest: Sha256Sum, expected: &Sha256Sum) -> (step: Self)
        ensures
            step@ == digest_checked(file@, digest@, expected@),
    {
        let ghost model = digest_checked(file@, digest@, expected@);
        let step = if digest == *expected {
            Step {
                notices: vec![
                    Notice::FileDigest { file, digest },
                    Notice::MatchesExpected,
                    Notice::Blank,
                ],
                next: Next::Finished(Ok(Value::Verified { file })),
            }
        } else {
            Step {
                notices: vec![Notice::FileDigest { file, digest }],
                next: Next::Finished(
                    Err(
                        Error::DigestMismatch {
                            expected: *expected,
                            actual: digest,
                            file: file.to_owned(),
                        },
                    ),
                ),
            }
        };
        assert(step@.notices =~= model.notices);
        step
    }
}

/// Digests of files.
///
/// These respect dry runs.
impl Context {
    /// Begins finding the digest of `file`.
    pub fn file_digest<'a>(&self, file: &'a str) -> (step: Step<'a>)
        ensures
            step@ == file_digest_step(self.dry_run(), file@),
    {
        let ghost model = file_digest_step(self.dry_run(), file@);
        let step = if self.dry_run() {
            Step {
                notices: vec![Notice::NotComputingDigest { file }],
                next: Next::Finished(Ok(Value::Digest(Sha256Sum::dummy()))),
            }
        } else {
            Step { notices: Vec::new(), next: Next::ReadFile(file, AfterRead::Digest) }
        };
        assert(step@.notices =~= model.notices);
        step
    }

    /// Begins showing the digest of `file`, as hex and as a mnemonic, without
    /// holding it against anything: this is how a digest is first set down.
    pub fn print_file_digest<'a>(&self, file: &'a str) -> (step: Step<'a>)
        ensures
            step@ == print_file_digest_step(self.dry_run(), file@),
    {
        let ghost model = print_file_digest_step(self.dry_run(), file@);
        let step = if self.dry_run() {
            let mut step = Step::digest_printed(file, Sha256Sum::dummy());
            proof {
                crate::steps::lemma_notice_views_prepend(
                    step.notices@,
                    Notice::NotComputingDigest { file },
                );
            }
            step.notices.insert(0, Notice::NotComputingDigest { file });
            step
        } else {
            Step { notices: Vec::new(), next: Next::ReadFile(file, AfterRead::Print { file }) }
        };
        assert(step@.notices =~= model.notices);
        step
    }

    /// Begins checking that `file` has the digest `expected`.
    ///
    /// A dry run has no digest to compare and always succeeds.
    pub fn check_file_digest<'a>(&self, file: &'a str, expected: &Sha256Sum) -> (step: Step<'a>)
        ensures
            step@ == check_file_digest_step(self.dry_run(), file@, expected@),
    {
        let ghost model = check_file_digest_step(self.dry_run(), file@, expected@);
        let step = if self.dry_run() {
            Step {
                notices: vec![
                    Notice::Blank,
                    Notice::NotComputingDigest { file },
                    Notice::FileDigest { file, digest: Sha256Sum::dummy() },
                    Notice::MatchesExpected,
                    Notice::Blank,
                ],
                next: Next::Finished(Ok(Value::Verified { file })),
            }
        } else {
            Step {
                notices: vec![Notice::Blank],
                next: Next::ReadFile(file, AfterRead::Check { file, expected: *expected }),
            }
        };
        assert(step@.notices =~= model.notices);
        step
    }

    /// Begins checking that `file` has the digest written as `expected_hex`.
    ///
    /// The text is read first: one that is no digest fails the step, also in
    /// a dry run.
    pub fn check_file_hex_digest<'a>(&self, file: &'a str, expected_hex: &str) -> (step: Step<'a>)
        ensures
            step@ == check_file_hex_digest_step(self.dry_run(), file@, expected_hex@),
    {
        match Sha256Sum::from_hex(expected_hex) {
            Ok(expected) => self.check_file_digest(file, &expected),
            Err(why) => Step::failed(Error::MalformedInput { why }),
        }
    }
}

impl<'a> AfterRead<'a> {
    /// Goes on with the step once the host has tried to read the file.
    /// `read` holds the whole content, or why it could not be read.
    pub fn resume(self, read: Result<Vec<u8>, String>) -> (step: Step<'a>)
        ensures
            step@ == after_read_step(self@, read_view(read)),
    {
        let content = match read {
            Ok(content) => content,
            Err(reason) => {
                return Step::failed(Error::Filesystem { reason });
            },
        };
        let digest = Sha256Sum::compute(content.as_slice());
        match self {
            AfterRead::Digest => {
                let step = Step {
                    notices: Vec::new(),
                    next: Next::Finished(Ok(Value::Digest(digest))),
                };
                assert(step@.notices =~= seq![]);
                step
            },
            AfterRead::Print { file } => Step::digest_printed(file, digest),
            AfterRead::Check { file, expected } => Step::digest_checked(file, digest, &expected),
        }
    }
}

} // verus!
