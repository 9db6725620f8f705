//! Classification and formatting of media metadata: deriving a [`MediaType`]
//! from a path or sniffed content type, probing an audio buffer's total
//! duration, and rendering durations for the control bar.
use vstd::prelude::*;

use crate::InputMode;
use crate::InputModeView;
use crate::MediaType;
use crate::TranscriptionData;
use crate::TranscriptionDataView;
use crate::TranscriptionProgress;
use crate::TranscriptionProgressView;

verus! {

/// Decimal digit character of `d`, for `0 <= d <= 9`.
pub open spec fn spec_digit(d: int) -> char {
    if d == 0 {
        '0'
    } else if d == 1 {
        '1'
    } else if d == 2 {
        '2'
    } else if d == 3 {
        '3'
    } else if d == 4 {
        '4'
    } else if d == 5 {
        '5'
    } else if d == 6 {
        '6'
    } else if d == 7 {
        '7'
    } else if d == 8 {
        '8'
    } else {
        '9'
    }
}

/// Decimal digits of `n`, most significant first, with no leading zero
/// except for `n == 0` itself.
pub open spec fn spec_decimal(n: int) -> Seq<char>
    decreases n,
{
    if n < 10 {
        seq![spec_digit(n)]
    } else {
        spec_decimal(n / 10).push(spec_digit(n % 10))
    }
}

/// Decimal digits of `n`, zero-padded on the left to at least two digits.
pub open spec fn spec_two_digits(n: int) -> Seq<char> {
    if n < 10 {
        seq!['0'] + spec_decimal(n)
    } else {
        spec_decimal(n)
    }
}

/// The clock rendering of a duration given in milliseconds: `MM:SS` under one
/// hour, `HH:MM:SS` from one hour on, every field zero-padded to two digits.
pub open spec fn spec_format_duration(millis: u64) -> Seq<char> {
    let total = millis as int / 1000;
    let seconds = total % 60;
    let minutes = (total / 60) % 60;
    let hours = (total / 60) / 60;
    if hours >= 1 {
        spec_two_digits(hours) + seq![':'] + spec_two_digits(minutes) + seq![':']
            + spec_two_digits(seconds)
    } else {
        spec_two_digits(minutes) + seq![':'] + spec_two_digits(seconds)
    }
}

fn digit_str(d: u64) -> (r: &'static str)
    requires
        d <= 9,
    ensures
        r@ =~= seq![spec_digit(d as int)],
{
    proof {
        reveal_strlit("0");
        reveal_strlit("1");
        reveal_strlit("2");
        reveal_strlit("3");
        reveal_strlit("4");
        reveal_strlit("5");
        reveal_strlit("6");
        reveal_strlit("7");
        reveal_strlit("8");
        reveal_strlit("9");
    }
    match d {
        0 => "0",
        1 => "1",
        2 => "2",
        3 => "3",
        4 => "4",
        5 => "5",
        6 => "6",
        7 => "7",
        8 => "8",
        _ => "9",
    }
}

fn decimal_string(n: u64) -> (r: String)
    ensures
        r@ =~= spec_decimal(n as int),
    decreases n,
{
    if n < 10 {
        digit_str(n).to_owned()
    } else {
        let mut prefix = decimal_string(n / 10);
        prefix.append(digit_str(n % 10));
        prefix
    }
}

fn two_digit_string(n: u64) -> (r: String)
    ensures
        r@ =~= spec_two_digits(n as int),
{
    if n < 10 {
        proof {
            reveal_strlit("0");
        }
        let mut s = "0".to_owned();
        let d = decimal_string(n);
        s.append(d.as_str());
        s
    } else {
        decimal_string(n)
    }
}

/// Renders a duration, given in milliseconds, as `MM:SS`, or `HH:MM:SS` once
/// it reaches a full hour.
///
/// `format_duration(64_000)` is `"01:04"`; `format_duration(5_422_000)` is
/// `"01:30:22"`.
pub fn format_duration(millis: u64) -> (r: String)
    ensures
        r@ =~= spec_format_duration(millis),
{
    proof {
        reveal_strlit(":");
    }
    let total = millis / 1000;
    let seconds = total % 60;
    let minutes = (total / 60) % 60;
    let hours = (total / 60) / 60;
    if hours >= 1 {
        let mut s = two_digit_string(hours);
        s.append(":");
        let m = two_digit_string(minutes);
        s.append(m.as_str());
        s.append(":");
        let sec = two_digit_string(seconds);
        s.append(sec.as_str());
        s
    } else {
        let mut s = two_digit_string(minutes);
        s.append(":");
        let sec = two_digit_string(seconds);
        s.append(sec.as_str());
        s
    }
}

/// ASCII lowercasing of one character; other characters are left alone.
pub open spec fn spec_lower_char(c: char) -> char {
    if 'A' <= c && c <= 'Z' {
        (((c as u8) + 32) as char)
    } else {
        c
    }
}

/// ASCII lowercasing of a character sequence.
pub open spec fn spec_lower(s: Seq<char>) -> Seq<char> {
    s.map_values(|c: char| spec_lower_char(c))
}

/// Index at which the file name of `path` starts: right after the last `/`
/// separator, or zero when there is none.
pub open spec fn spec_name_start(path: Seq<char>) -> int
    decreases path.len(),
{
    if path.len() == 0 {
        0
    } else if path.last() == '/' {
        path.len() as int
    } else {
        spec_name_start(path.drop_last())
    }
}

/// Index of the last `.` of `path`, if any.
pub open spec fn spec_last_dot(path: Seq<char>) -> Option<int>
    decreases path.len(),
{
    if path.len() == 0 {
        Option::None
    } else if path.last() == '.' {
        Option::Some(path.len() - 1)
    } else {
        spec_last_dot(path.drop_last())
    }
}

/// `path` with its trailing `/` separators removed; a path naming a
/// directory by a trailing separator still classifies by the name before
/// it.
pub open spec fn spec_trim_separators(path: Seq<char>) -> Seq<char>
    decreases path.len(),
{
    if path.len() > 0 && path.last() == '/' {
        spec_trim_separators(path.drop_last())
    } else {
        path
    }
}

/// The extension under which `path` is classified.
///
/// A path without any dot is taken to be a bare extension itself, so that a
/// plain `"mp3"` can be classified. Otherwise trailing separators are
/// skipped, and the extension is what follows the last dot of the file
/// name — the part after the last `/` — with none when that dot is missing
/// from the file name or is its first character.
pub open spec fn spec_extension(path: Seq<char>) -> Option<Seq<char>> {
    if !path.contains('.') {
        Option::Some(path)
    } else {
        let trimmed = spec_trim_separators(path);
        let start = spec_name_start(trimmed);
        match spec_last_dot(trimmed) {
            Option::None => Option::None,
            Option::Some(d) => if d <= start {
                Option::None
            } else {
                Option::Some(trimmed.skip(d + 1))
            },
        }
    }
}

/// Classification of a bare extension, compared without regard to ASCII
/// case. Only ASCII letters are folded: an extension spelled with
/// non-ASCII letterforms does not match any table entry and classifies as
/// `Error`.
pub open spec fn spec_media_type_of_extension(e: Seq<char>) -> MediaType {
    let l = spec_lower(e);
    if l == "mp4"@ || l == "avi"@ || l == "mov"@ || l == "mkv"@ {
        MediaType::Video
    } else if l == "mp3"@ || l == "wav"@ || l == "m4a"@ || l == "flac"@ {
        MediaType::Audio
    } else {
        MediaType::Error
    }
}

/// Classification of a path (or bare extension): `Audio`, `Video`, or
/// `Error` when the extension is missing or unknown.
pub open spec fn spec_media_type(path: Seq<char>) -> MediaType {
    match spec_extension(path) {
        Option::None => MediaType::Error,
        Option::Some(e) => spec_media_type_of_extension(e),
    }
}

fn lower_char(c: char) -> (r: char)
    ensures
        r == spec_lower_char(c),
{
    if 'A' <= c && c <= 'Z' {
        ((c as u8) + 32) as char
    } else {
        c
    }
}

/// Compares the ASCII-lowercased `s[from..to]` against `target`.
fn eq_lower(s: &str, from: usize, to: usize, target: &str) -> (r: bool)
    requires
        from <= to <= s@.len(),
    ensures
        r == (spec_lower(s@.subrange(from as int, to as int)) == target@),
{
    let ghost sub = s@.subrange(from as int, to as int);
    let tlen = target.unicode_len();
    if to - from != tlen {
        proof {
            assert(spec_lower(sub).len() == sub.len());
        }
        return false;
    }
    let mut i: usize = 0;
    while i < tlen
        invariant
            from <= to <= s@.len(),
            tlen == target@.len(),
            to - from == tlen,
            i <= tlen,
            sub == s@.subrange(from as int, to as int),
            forall|j: int| 0 <= j < i ==> spec_lower_char(sub[j]) == target@[j],
        decreases tlen - i,
    {
        let c = lower_char(s.get_char(from + i));
        let t = target.get_char(i);
        if c != t {
            proof {
                assert(spec_lower(sub)[i as int] != target@[i as int]);
            }
            return false;
        }
        i += 1;
    }
    proof {
        assert(spec_lower(sub) =~= target@);
    }
    true
}

/// The length of `s` once its trailing `/` separators are dropped.
fn trim_separators(s: &str) -> (m: usize)
    ensures
        m <= s@.len(),
        spec_trim_separators(s@) == s@.take(m as int),
{
    let n = s.unicode_len();
    let mut m = n;
    proof {
        assert(s@.take(n as int) =~= s@);
    }
    loop
        invariant
            m <= n,
            n == s@.len(),
            spec_trim_separators(s@) == spec_trim_separators(s@.take(m as int)),
        decreases m,
    {
        if m == 0 {
            return 0;
        }
        let c = s.get_char(m - 1);
        proof {
            assert(s@.take(m as int).last() == s@[m - 1]);
        }
        if c != '/' {
            return m;
        }
        proof {
            assert(s@.take(m as int).drop_last() =~= s@.take(m - 1));
        }
        m = m - 1;
    }
}

/// Index right after the last `/` of `s[..upto]`, or zero when there is
/// none.
fn name_start(s: &str, upto: usize) -> (r: usize)
    requires
        upto <= s@.len(),
    ensures
        r == spec_name_start(s@.take(upto as int)),
        r <= upto,
{
    let mut i = upto;
    loop
        invariant
            i <= upto <= s@.len(),
            spec_name_start(s@.take(upto as int)) == spec_name_start(s@.take(i as int)),
        decreases i,
    {
        if i == 0 {
            return 0;
        }
        let c = s.get_char(i - 1);
        proof {
            assert(s@.take(i as int).last() == s@[i - 1]);
        }
        if c == '/' {
            return i;
        }
        proof {
            assert(s@.take(i as int).drop_last() =~= s@.take(i - 1));
        }
        i = i - 1;
    }
}

/// Index of the last `.` of `s[..upto]`, if any.
fn last_dot(s: &str, upto: usize) -> (r: Option<usize>)
    requires
        upto <= s@.len(),
    ensures
        match r {
            Some(d) => d < upto && s@[d as int] == '.' && spec_last_dot(s@.take(upto as int))
                == Option::Some(d as int),
            None => spec_last_dot(s@.take(upto as int)) is None,
        },
{
    let mut i = upto;
    loop
        invariant
            i <= upto <= s@.len(),
            spec_last_dot(s@.take(upto as int)) == spec_last_dot(s@.take(i as int)),
        decreases i,
    {
        if i == 0 {
            return None;
        }
        let c = s.get_char(i - 1);
        proof {
            assert(s@.take(i as int).last() == s@[i - 1]);
        }
        if c == '.' {
            return Some(i - 1);
        }
        proof {
            assert(s@.take(i as int).drop_last() =~= s@.take(i - 1));
        }
        i = i - 1;
    }
}

/// Classifies a file path (or bare extension) by its extension:
/// `mp3`, `wav`, `m4a` and `flac` are audio, `mp4`, `avi`, `mov` and `mkv`
/// are video, anything else — including a missing extension — is `Error`.
/// The comparison folds ASCII letters only: an extension spelled with
/// non-ASCII letterforms is not recognised.
pub fn get_media_type(file_path: &str) -> (t: MediaType)
    ensures
        t == spec_media_type(file_path@),
{
    let n = file_path.unicode_len();
    proof {
        assert(file_path@.take(n as int) =~= file_path@);
    }
    let lo: usize;
    let hi: usize;
    match last_dot(file_path, n) {
        None => {
            proof {
                if file_path@.contains('.') {
                    let ghost w = choose|w: int|
                        0 <= w < file_path@.len() && file_path@[w] == '.';
                    lemma_last_dot_finds(file_path@, w);
                }
            }
            lo = 0;
            hi = n;
            proof {
                assert(file_path@.subrange(0, n as int) =~= file_path@);
            }
        },
        Some(d0) => {
            proof {
                assert(file_path@.contains('.')) by {
                    assert(file_path@[d0 as int] == '.');
                }
            }
            let m = trim_separators(file_path);
            match last_dot(file_path, m) {
                None => {
                    return MediaType::Error;
                },
                Some(d) => {
                    let start = name_start(file_path, m);
                    if d <= start {
                        return MediaType::Error;
                    }
                    lo = d + 1;
                    hi = m;
                    proof {
                        assert(file_path@.subrange(lo as int, hi as int) =~= file_path@.take(
                            m as int,
                        ).skip(d + 1));
                    }
                },
            }
        },
    }
    if eq_lower(file_path, lo, hi, "mp4") || eq_lower(file_path, lo, hi, "avi") || eq_lower(
        file_path,
        lo,
        hi,
        "mov",
    ) || eq_lower(file_path, lo, hi, "mkv") {
        MediaType::Video
    } else if eq_lower(file_path, lo, hi, "mp3") || eq_lower(file_path, lo, hi, "wav") || eq_lower(
        file_path,
        lo,
        hi,
        "m4a",
    ) || eq_lower(file_path, lo, hi, "flac") {
        MediaType::Audio
    } else {
        MediaType::Error
    }
}

/// The file extension that content sniffing assigns to a byte buffer, when
/// its leading magic bytes are recognised; a pure function of the bytes.
pub uninterp spec fn sniffed_extension(bytes: Seq<u8>) -> Option<Seq<char>>;

/// Relies on `infer::get` and `infer::Type::extension`: the detected type is
/// chosen by pure matchers over the buffer's leading bytes, and `extension`
/// is the canonical file extension stored for that type.
#[verifier::external_body]
pub(crate) fn sniff_extension(bytes: &Vec<u8>) -> (r: Option<&'static str>)
    ensures
        r matches Some(e) ==> sniffed_extension(bytes@) == Option::Some(e@),
        r is None ==> sniffed_extension(bytes@) is None,
{
    infer::get(bytes.as_slice()).map(|kind| kind.extension())
}

/// The duration, in whole milliseconds, that MPEG frame parsing measures for
/// a byte buffer, or `None` for a stream it cannot parse; a pure function of
/// the bytes.
pub uninterp spec fn mp3_duration_millis(bytes: Seq<u8>) -> Option<u64>;

/// The largest frame count a Xing or Info index may claim before the
/// probe's nanosecond arithmetic could overflow: the probe multiplies the
/// claimed count by at most 1152 samples per frame and then by one billion
/// in 64 bits, and `16_000_000 * 1152 * 1_000_000_000` still fits.
pub const MAX_CLAIMED_FRAMES: u64 = 16_000_000;

/// A `Xing` or `Info` index tag at `i` in `b` whose flags claim a frame
/// count: the four tag bytes, then four flag bytes of which the last has
/// its lowest bit set, then the four count bytes.
pub open spec fn spec_xing_claim_at(b: Seq<u8>, i: int) -> bool {
    &&& 0 <= i
    &&& i + 12 <= b.len()
    &&& ((b[i] == 88 && b[i + 1] == 105 && b[i + 2] == 110 && b[i + 3] == 103) || (b[i] == 73
        && b[i + 1] == 110 && b[i + 2] == 102 && b[i + 3] == 111))
    &&& b[i + 7] & 1 == 1
}

/// The big-endian frame count such a tag claims.
pub open spec fn spec_claimed_frame_count(b: Seq<u8>, i: int) -> int {
    b[i + 8] * 0x1000000 + b[i + 9] * 0x10000 + b[i + 10] * 0x100 + b[i + 11]
}

/// No Xing or Info index anywhere in the buffer claims more frames than
/// [`MAX_CLAIMED_FRAMES`]. On such a buffer the probe's arithmetic cannot
/// overflow, whichever of the candidate positions frame parsing actually
/// reads its index from.
pub open spec fn spec_mp3_claims_bounded(b: Seq<u8>) -> bool {
    forall|i: int|
        spec_xing_claim_at(b, i) ==> spec_claimed_frame_count(b, i) <= MAX_CLAIMED_FRAMES as int
}

/// Checks [`spec_mp3_claims_bounded`] by scanning every position of the
/// buffer.
fn mp3_claims_bounded(bytes: &Vec<u8>) -> (r: bool)
    ensures
        r == spec_mp3_claims_bounded(bytes@),
{
    let n = bytes.len();
    if n < 12 {
        return true;
    }
    let mut i: usize = 0;
    while i <= n - 12
        invariant
            12 <= n == bytes@.len(),
            i <= n,
            forall|j: int|
                0 <= j < i && spec_xing_claim_at(bytes@, j) ==> spec_claimed_frame_count(
                    bytes@,
                    j,
                ) <= MAX_CLAIMED_FRAMES as int,
        decreases n - i,
    {
        let tag_xing = bytes[i] == 88 && bytes[i + 1] == 105 && bytes[i + 2] == 110 && bytes[i
            + 3] == 103;
        let tag_info = bytes[i] == 73 && bytes[i + 1] == 110 && bytes[i + 2] == 102 && bytes[i
            + 3] == 111;
        if (tag_xing || tag_info) && bytes[i + 7] & 1 == 1 {
            let count: u64 = (bytes[i + 8] as u64) * 0x1000000 + (bytes[i + 9] as u64) * 0x10000
                + (bytes[i + 10] as u64) * 0x100 + (bytes[i + 11] as u64);
            if count > MAX_CLAIMED_FRAMES {
                proof {
                    assert(spec_xing_claim_at(bytes@, i as int));
                }
                return false;
            }
        }
        i += 1;
    }
    proof {
        assert forall|j: int|
            spec_xing_claim_at(bytes@, j) implies spec_claimed_frame_count(bytes@, j)
            <= MAX_CLAIMED_FRAMES as int by {
            assert(0 <= j < i);
        }
    }
    true
}

/// Relies on `mp3_duration::from_read`: the duration is summed from the
/// frame headers of the byte stream alone, and an unparsable stream is an
/// error, not a panic. Its one unchecked computation is the nanosecond
/// arithmetic over a Xing or Info index's claimed frame count, which can
/// overflow — and, in a build with overflow checks, panic — on an
/// oversized claim; the `requires` admits only buffers whose claims stay
/// under the bound that keeps that arithmetic in range.
#[verifier::external_body]
fn mp3_duration_from_bytes(bytes: &Vec<u8>) -> (r: Option<u64>)
    requires
        spec_mp3_claims_bounded(bytes@),
    ensures
        r == mp3_duration_millis(bytes@),
{
    let mut cursor = std::io::Cursor::new(bytes.as_slice());
    match mp3_duration::from_read(&mut cursor) {
        Ok(d) => Some(u64::try_from(d.as_millis()).unwrap_or(u64::MAX)),
        Err(_) => None,
    }
}

/// The margin added to a successful probe: a probed duration of zero stays
/// zero, any other gains one second, saturating at the numeric limit.
pub open spec fn spec_adjusted_probe(raw: u64) -> u64 {
    if raw == 0 {
        0
    } else if raw + 1000 > u64::MAX {
        u64::MAX
    } else {
        (raw + 1000) as u64
    }
}

/// The total duration, in milliseconds, that the library derives for a media
/// source. Only an in-memory buffer can be probed here: a buffer sniffed as
/// mp3 — and whose index claims stay under the probe's arithmetic bound —
/// is measured from its frame headers and granted the one-second margin;
/// every other source falls back to zero, the degraded "unknown duration".
/// For a filesystem path the probing is I/O and lies with the host, which
/// may store its result through `player::Player::set_total_time`.
pub open spec fn spec_total_time(input: InputModeView) -> u64 {
    match input {
        InputModeView::FilePath(_) => 0,
        InputModeView::Bytes(b) => match sniffed_extension(b) {
            Option::None => 0,
            Option::Some(e) => if e == "mp3"@ && spec_mp3_claims_bounded(b) {
                match mp3_duration_millis(b) {
                    Option::None => 0,
                    Option::Some(raw) => spec_adjusted_probe(raw),
                }
            } else {
                0
            },
        },
    }
}

/// The classification of a media source: a path is classified by its
/// extension, a byte buffer by the extension its sniffed content type
/// carries, and an unrecognised buffer is `Error`.
pub open spec fn spec_media_type_of_input(input: InputModeView) -> MediaType {
    match input {
        InputModeView::FilePath(p) => spec_media_type(p),
        InputModeView::Bytes(b) => match sniffed_extension(b) {
            Option::Some(e) => spec_media_type(e),
            Option::None => MediaType::Error,
        },
    }
}

/// Compares two character sequences for equality.
fn str_eq(a: &str, b: &str) -> (r: bool)
    ensures
        r == (a@ == b@),
{
    let n = a.unicode_len();
    if n != b.unicode_len() {
        return false;
    }
    let mut i: usize = 0;
    while i < n
        invariant
            i <= n,
            n == a@.len() == b@.len(),
            forall|j: int| 0 <= j < i ==> a@[j] == b@[j],
        decreases n - i,
    {
        if a.get_char(i) != b.get_char(i) {
            return false;
        }
        i += 1;
    }
    proof {
        assert(a@ =~= b@);
    }
    true
}

/// The probed total duration of a media source, in milliseconds, for a
/// source already classified as audio.
///
/// An in-memory buffer that sniffs as mp3 is measured from its frame
/// headers, with one second of margin added to a non-zero result; anything
/// else — an unrecognised buffer, one whose Xing or Info index claims a
/// frame count too large for the probe's arithmetic, a container this
/// build cannot measure, or a filesystem path, whose probing is I/O and
/// lies with the host — falls back to zero, the degraded "unknown
/// duration" of a still-usable player.
pub fn get_total_time(media_type: MediaType, input_mode: &InputMode) -> (t: u64)
    requires
        media_type is Audio,
    ensures
        t == spec_total_time(input_mode@),
{
    match input_mode {
        InputMode::FilePath(_) => 0,
        InputMode::Bytes(bytes) => {
            match sniff_extension(bytes) {
                None => 0,
                Some(ext) => {
                    if str_eq(ext, "mp3") && mp3_claims_bounded(bytes) {
                        match mp3_duration_from_bytes(bytes) {
                            None => 0,
                            Some(raw) => {
                                if raw == 0 {
                                    0
                                } else if raw > u64::MAX - 1000 {
                                    u64::MAX
                                } else {
                                    raw + 1000
                                }
                            },
                        }
                    } else {
                        0
                    }
                },
            }
        },
    }
}

/// One recognised chunk within a transcription window: its text and, when
/// the recogniser produced one, its start and end within the window, in
/// milliseconds local to that window.
#[derive(Debug)]
pub struct TranscriptChunk {
    pub text: String,
    pub timestamp: Option<(u64, u64)>,
}

/// Mathematical value of a [`TranscriptChunk`].
pub ghost struct TranscriptChunkView {
    pub text: Seq<char>,
    pub timestamp: Option<(u64, u64)>,
}

impl View for TranscriptChunk {
    type V = TranscriptChunkView;

    open spec fn view(&self) -> TranscriptChunkView {
        TranscriptChunkView { text: self.text@, timestamp: self.timestamp }
    }
}

impl Clone for TranscriptChunk {
    fn clone(&self) -> (r: Self)
        ensures
            r@ == self@,
    {
        TranscriptChunk { text: self.text.clone(), timestamp: self.timestamp }
    }
}

/// A window-local time lifted to an absolute one: the recogniser reports
/// chunk times relative to their enclosing window, so the window's index
/// times the window length is added, saturating at the numeric limit.
pub open spec fn spec_absolute_time(local: u64, window_index: int, window_millis: u64) -> u64 {
    let v = local + window_index * window_millis;
    if v > u64::MAX {
        u64::MAX
    } else {
        v as u64
    }
}

/// The views of a run's chunks, and of the transcript entries they yield.
pub open spec fn spec_data_views(s: Seq<TranscriptionData>) -> Seq<TranscriptionDataView> {
    s.map_values(|d: TranscriptionData| d@)
}

/// The views of a sequence of progress events.
pub open spec fn spec_progress_views(s: Seq<TranscriptionProgress>) -> Seq<
    TranscriptionProgressView,
> {
    s.map_values(|e: TranscriptionProgress| e@)
}

/// The views of a run's windows of chunks.
pub open spec fn spec_windows_view(windows: Seq<Vec<TranscriptChunk>>) -> Seq<
    Seq<TranscriptChunkView>,
> {
    windows.map_values(|w: Vec<TranscriptChunk>| w@.map_values(|c: TranscriptChunk| c@))
}

/// The transcript entry a timestamped chunk yields: its absolute start time
/// and its text, which with `is_timestamped` is prefixed by the rendered
/// `start-end: ` range and followed by a line break.
pub open spec fn spec_chunk_data(
    c: TranscriptChunkView,
    window_index: int,
    window_millis: u64,
    is_timestamped: bool,
) -> TranscriptionDataView
    recommends
        c.timestamp is Some,
{
    match c.timestamp {
        Option::Some((local_start, local_end)) => {
            let start = spec_absolute_time(local_start, window_index, window_millis);
            let end = spec_absolute_time(local_end, window_index, window_millis);
            TranscriptionDataView {
                text: if is_timestamped {
                    spec_format_duration(start) + seq!['-'] + spec_format_duration(end) + seq![
                        ':',
                        ' ',
                    ] + c.text + seq!['\n']
                } else {
                    c.text
                },
                time: start,
            }
        },
        Option::None => TranscriptionDataView { text: c.text, time: 0 },
    }
}

/// The events one chunk contributes: a timestamped chunk announces its entry
/// and then the `Reading` heartbeat, a chunk without a timestamp only the
/// heartbeat.
pub open spec fn spec_chunk_events(
    c: TranscriptChunkView,
    window_index: int,
    window_millis: u64,
    is_timestamped: bool,
) -> Seq<TranscriptionProgressView> {
    match c.timestamp {
        Option::Some(_) => seq![
            TranscriptionProgressView::InProgress(
                spec_chunk_data(c, window_index, window_millis, is_timestamped),
            ),
            TranscriptionProgressView::Reading,
        ],
        Option::None => seq![TranscriptionProgressView::Reading],
    }
}

/// The transcript entries one chunk contributes: one for a timestamped
/// chunk, none otherwise.
pub open spec fn spec_chunk_transcript(
    c: TranscriptChunkView,
    window_index: int,
    window_millis: u64,
    is_timestamped: bool,
) -> Seq<TranscriptionDataView> {
    match c.timestamp {
        Option::Some(_) => seq![spec_chunk_data(c, window_index, window_millis, is_timestamped)],
        Option::None => seq![],
    }
}

/// The events of one window, chunk by chunk in order.
pub open spec fn spec_window_events(
    chunks: Seq<TranscriptChunkView>,
    window_index: int,
    window_millis: u64,
    is_timestamped: bool,
) -> Seq<TranscriptionProgressView>
    decreases chunks.len(),
{
    if chunks.len() == 0 {
        Seq::empty()
    } else {
        spec_window_events(chunks.drop_last(), window_index, window_millis, is_timestamped)
            + spec_chunk_events(chunks.last(), window_index, window_millis, is_timestamped)
    }
}

/// The transcript entries of one window, chunk by chunk in order.
pub open spec fn spec_window_transcript(
    chunks: Seq<TranscriptChunkView>,
    window_index: int,
    window_millis: u64,
    is_timestamped: bool,
) -> Seq<TranscriptionDataView>
    decreases chunks.len(),
{
    if chunks.len() == 0 {
        Seq::empty()
    } else {
        spec_window_transcript(chunks.drop_last(), window_index, window_millis, is_timestamped)
            + spec_chunk_transcript(chunks.last(), window_index, window_millis, is_timestamped)
    }
}

/// The events of all windows of a run, in stream order, without the
/// terminal event.
pub open spec fn spec_windows_events(
    windows: Seq<Seq<TranscriptChunkView>>,
    window_millis: u64,
    is_timestamped: bool,
) -> Seq<TranscriptionProgressView>
    decreases windows.len(),
{
    if windows.len() == 0 {
        Seq::empty()
    } else {
        spec_windows_events(windows.drop_last(), window_millis, is_timestamped)
            + spec_window_events(
            windows.last(),
            windows.len() - 1,
            window_millis,
            is_timestamped,
        )
    }
}

/// The transcript of a whole run, in stream order.
pub open spec fn spec_run_transcript(
    windows: Seq<Seq<TranscriptChunkView>>,
    window_millis: u64,
    is_timestamped: bool,
) -> Seq<TranscriptionDataView>
    decreases windows.len(),
{
    if windows.len() == 0 {
        Seq::empty()
    } else {
        spec_run_transcript(windows.drop_last(), window_millis, is_timestamped)
            + spec_window_transcript(
            windows.last(),
            windows.len() - 1,
            window_millis,
            is_timestamped,
        )
    }
}

/// The full event stream of a run: the windows' events, closed by the one
/// terminal `Finished`.
pub open spec fn spec_run_events(
    windows: Seq<Seq<TranscriptChunkView>>,
    window_millis: u64,
    is_timestamped: bool,
) -> Seq<TranscriptionProgressView> {
    spec_windows_events(windows, window_millis, is_timestamped).push(
        TranscriptionProgressView::Finished,
    )
}

fn absolute_time(local: u64, window_index: u64, window_millis: u64) -> (r: u64)
    ensures
        r == spec_absolute_time(local, window_index as int, window_millis),
{
    match window_index.checked_mul(window_millis) {
        Some(base) => match local.checked_add(base) {
            Some(v) => v,
            None => u64::MAX,
        },
        None => u64::MAX,
    }
}

/// Turns the chunk windows that a recogniser delivered into the transcript
/// and the ordered progress-event stream of one transcription run.
///
/// The windows are processed in stream order; every timestamped chunk yields
/// one transcript entry and announces it with an `InProgress` event, every
/// chunk is followed by a `Reading` heartbeat, and the stream is closed by
/// the single terminal `Finished`. A run that failed midway simply delivers
/// fewer windows: the terminal event is emitted regardless, so a consumer is
/// always released.
pub fn transcription_events(
    windows: &Vec<Vec<TranscriptChunk>>,
    is_timestamped: bool,
    window_millis: u64,
) -> (r: (Vec<TranscriptionData>, Vec<TranscriptionProgress>))
    ensures
        spec_data_views(r.0@) == spec_run_transcript(
            spec_windows_view(windows@),
            window_millis,
            is_timestamped,
        ),
        spec_progress_views(r.1@) == spec_run_events(
            spec_windows_view(windows@),
            window_millis,
            is_timestamped,
        ),
{
    broadcast use Seq::lemma_push_map_commute;

    let ghost wv = spec_windows_view(windows@);
    let mut transcript: Vec<TranscriptionData> = Vec::new();
    let mut events: Vec<TranscriptionProgress> = Vec::new();
    let mut w: usize = 0;
    proof {
        assert(wv.take(0) =~= Seq::<Seq<TranscriptChunkView>>::empty());
    }
    while w < windows.len()
        invariant
            w <= windows.len(),
            wv == spec_windows_view(windows@),
            wv.len() == windows@.len(),
            spec_data_views(transcript@) == spec_run_transcript(
                wv.take(w as int),
                window_millis,
                is_timestamped,
            ),
            spec_progress_views(events@) == spec_windows_events(
                wv.take(w as int),
                window_millis,
                is_timestamped,
            ),
        decreases windows.len() - w,
    {
        broadcast use Seq::lemma_push_map_commute;

        let chunks: &Vec<TranscriptChunk> = &windows[w];
        let ghost cv = wv[w as int];
        proof {
            assert(cv == chunks@.map_values(|c: TranscriptChunk| c@));
            assert(cv.take(0) =~= Seq::<TranscriptChunkView>::empty());
        }
        let mut c: usize = 0;
        while c < chunks.len()
            invariant
                c <= chunks.len(),
                w < windows.len(),
                wv == spec_windows_view(windows@),
                wv.len() == windows@.len(),
                cv == wv[w as int],
                cv == chunks@.map_values(|ch: TranscriptChunk| ch@),
                cv.len() == chunks@.len(),
                spec_data_views(transcript@) == spec_run_transcript(
                    wv.take(w as int),
                    window_millis,
                    is_timestamped,
                ) + spec_window_transcript(
                    cv.take(c as int),
                    w as int,
                    window_millis,
                    is_timestamped,
                ),
                spec_progress_views(events@) == spec_windows_events(
                    wv.take(w as int),
                    window_millis,
                    is_timestamped,
                ) + spec_window_events(
                    cv.take(c as int),
                    w as int,
                    window_millis,
                    is_timestamped,
                ),
            decreases chunks.len() - c,
        {
            broadcast use Seq::lemma_push_map_commute;

            let chunk: &TranscriptChunk = &chunks[c];
            proof {
                assert(cv[c as int] == chunk@);
                assert(cv.take(c as int + 1).drop_last() =~= cv.take(c as int));
                assert(cv.take(c as int + 1).last() == cv[c as int]);
            }
            match chunk.timestamp {
                Some((local_start, local_end)) => {
                    let start = absolute_time(local_start, w as u64, window_millis);
                    let end = absolute_time(local_end, w as u64, window_millis);
                    let text = if is_timestamped {
                        proof {
                            reveal_strlit("-");
                            reveal_strlit(": ");
                            reveal_strlit("\n");
                        }
                        let mut t = format_duration(start);
                        t.append("-");
                        let end_str = format_duration(end);
                        t.append(end_str.as_str());
                        t.append(": ");
                        t.append(chunk.text.as_str());
                        t.append("\n");
                        t
                    } else {
                        chunk.text.clone()
                    };
                    let data = TranscriptionData { text, time: start };
                    proof {
                        assert(data@.text =~= spec_chunk_data(
                            chunk@,
                            w as int,
                            window_millis,
                            is_timestamped,
                        ).text);
                        assert(data@ == spec_chunk_data(
                            chunk@,
                            w as int,
                            window_millis,
                            is_timestamped,
                        ));
                    }
                    events.push(TranscriptionProgress::InProgress(data.clone()));
                    transcript.push(data);
                    events.push(TranscriptionProgress::Reading);
                },
                None => {
                    events.push(TranscriptionProgress::Reading);
                },
            }
            proof {
                assert(spec_data_views(transcript@) =~= spec_run_transcript(
                    wv.take(w as int),
                    window_millis,
                    is_timestamped,
                ) + spec_window_transcript(
                    cv.take(c as int + 1),
                    w as int,
                    window_millis,
                    is_timestamped,
                ));
                assert(spec_progress_views(events@) =~= spec_windows_events(
                    wv.take(w as int),
                    window_millis,
                    is_timestamped,
                ) + spec_window_events(
                    cv.take(c as int + 1),
                    w as int,
                    window_millis,
                    is_timestamped,
                ));
            }
            c += 1;
        }
        proof {
            assert(cv.take(chunks@.len() as int) =~= cv);
            assert(wv.take(w as int + 1).drop_last() =~= wv.take(w as int));
            assert(wv.take(w as int + 1).last() == wv[w as int]);
        }
        w += 1;
    }
    proof {
        assert(wv.take(windows@.len() as int) =~= wv);
    }
    events.push(TranscriptionProgress::Finished);
    (transcript, events)
}

/// Law: one window's events are only `InProgress` entries and `Reading`
/// heartbeats — never a terminal event.
proof fn lemma_window_events_no_finished(
    chunks: Seq<TranscriptChunkView>,
    window_index: int,
    window_millis: u64,
    is_timestamped: bool,
)
    ensures
        forall|i: int|
            0 <= i < spec_window_events(chunks, window_index, window_millis, is_timestamped).len()
                ==> (#[trigger] spec_window_events(
                chunks,
                window_index,
                window_millis,
                is_timestamped,
            )[i]) is InProgress || spec_window_events(
                chunks,
                window_index,
                window_millis,
                is_timestamped,
            )[i] is Reading,
    decreases chunks.len(),
{
    if chunks.len() > 0 {
        lemma_window_events_no_finished(
            chunks.drop_last(),
            window_index,
            window_millis,
            is_timestamped,
        );
    }
}

/// Law: before the terminal event, a run's stream holds only `InProgress`
/// entries and `Reading` heartbeats.
proof fn lemma_windows_events_no_finished(
    windows: Seq<Seq<TranscriptChunkView>>,
    window_millis: u64,
    is_timestamped: bool,
)
    ensures
        forall|i: int|
            0 <= i < spec_windows_events(windows, window_millis, is_timestamped).len() ==> (
            #[trigger] spec_windows_events(windows, window_millis, is_timestamped)[i])
                is InProgress || spec_windows_events(windows, window_millis, is_timestamped)[i]
                is Reading,
    decreases windows.len(),
{
    if windows.len() > 0 {
        lemma_windows_events_no_finished(windows.drop_last(), window_millis, is_timestamped);
        lemma_window_events_no_finished(
            windows.last(),
            windows.len() - 1,
            window_millis,
            is_timestamped,
        );
    }
}

/// Law: the event stream of a transcription run is totally ordered and ends
/// with exactly one `Finished` — its last event is the terminal one and no
/// earlier event is. This holds for a completed run and equally for one cut
/// short, whose stream simply covers fewer windows.
pub proof fn lemma_run_events_single_finished(
    windows: Seq<Seq<TranscriptChunkView>>,
    window_millis: u64,
    is_timestamped: bool,
)
    ensures
        spec_run_events(windows, window_millis, is_timestamped).len() >= 1,
        spec_run_events(windows, window_millis, is_timestamped).last()
            == TranscriptionProgressView::Finished,
        forall|i: int|
            0 <= i < spec_run_events(windows, window_millis, is_timestamped).len() - 1 ==> (
            #[trigger] spec_run_events(windows, window_millis, is_timestamped)[i])
                !is Finished,
{
    lemma_windows_events_no_finished(windows, window_millis, is_timestamped);
}

/// A sequence with a `.` at `w` has a last dot, so `spec_last_dot` is `Some`.
proof fn lemma_last_dot_finds(path: Seq<char>, w: int)
    requires
        0 <= w < path.len(),
        path[w] == '.',
    ensures
        spec_last_dot(path) is Some,
        path.contains('.'),
    decreases path.len(),
{
    if path.last() == '.' {
    } else {
        assert(w < path.len() - 1);
        lemma_last_dot_finds(path.drop_last(), w);
    }
}

} // verus!
