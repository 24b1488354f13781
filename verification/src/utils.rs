//! Small utilities: decimal rendering, the human-readable file size shown
//! in the input list, and the release/update helpers' decisions.

use vstd::prelude::*;
use vstd::string::StringExecFns;
use vstd::arithmetic::div_mod::{lemma_fundamental_div_mod, lemma_hoist_over_denominator};

verus! {

/// The character of one decimal digit.
pub open spec fn digit_char(d: int) -> char {
    if d == 0 {
        '0'
    } else if d == 1 {
        '1'
    } else if d == 2 {
        '2'
    } else if d == 3 {
        '3'
    } else if d == 4 {
        '4'
    } else if d == 5 {
        '5'
    } else if d == 6 {
        '6'
    } else if d == 7 {
        '7'
    } else if d == 8 {
        '8'
    } else {
        '9'
    }
}

/// A number's decimal digits, most significant first, with no leading
/// zeros (zero itself is the single digit 0).
pub open spec fn dec_chars(n: nat) -> Seq<char>
    decreases n,
{
    if n < 10 {
        seq![digit_char(n as int)]
    } else {
        dec_chars(n / 10) + seq![digit_char((n % 10) as int)]
    }
}

/// The characters of a digit stack read top-down: the digits were pushed
/// least significant first, so reading from the last gives the number.
pub open spec fn rev_chars(ds: Seq<u64>) -> Seq<char>
    decreases ds.len(),
{
    if ds.len() == 0 {
        Seq::empty()
    } else {
        seq![digit_char(ds.last() as int)] + rev_chars(ds.drop_last())
    }
}

proof fn lemma_rev_chars_cons(x: u64, t: Seq<u64>)
    ensures
        rev_chars(seq![x] + t) == rev_chars(t) + seq![digit_char(x as int)],
    decreases t.len(),
{
    let u = seq![x] + t;
    if t.len() == 0 {
        assert(u =~= seq![x]);
        assert(u.last() == x);
        assert(u.drop_last() =~= Seq::<u64>::empty());
        assert(rev_chars(Seq::<u64>::empty()) == Seq::<char>::empty());
        assert(rev_chars(t) == Seq::<char>::empty());
        assert(rev_chars(u) == seq![digit_char(x as int)] + Seq::<char>::empty());
        assert(rev_chars(u) =~= rev_chars(t) + seq![digit_char(x as int)]);
    } else {
        assert(u.last() == t.last());
        assert(u.drop_last() =~= seq![x] + t.drop_last());
        lemma_rev_chars_cons(x, t.drop_last());
        assert(rev_chars(u) == seq![digit_char(t.last() as int)] + rev_chars(seq![x] + t.drop_last()));
        assert(rev_chars(u) =~= rev_chars(t) + seq![digit_char(x as int)]);
    }
}

/// Appends one decimal digit's character.
fn push_digit(s: &mut String, d: u64)
    requires
        d < 10,
    ensures
        final(s)@ == old(s)@ + seq![digit_char(d as int)],
{
    proof {
        reveal_strlit("0");
        reveal_strlit("1");
        reveal_strlit("2");
        reveal_strlit("3");
        reveal_strlit("4");
        reveal_strlit("5");
        reveal_strlit("6");
        reveal_strlit("7");
        reveal_strlit("8");
        reveal_strlit("9");
    }
    match d {
        0 => s.append("0"),
        1 => s.append("1"),
        2 => s.append("2"),
        3 => s.append("3"),
        4 => s.append("4"),
        5 => s.append("5"),
        6 => s.append("6"),
        7 => s.append("7"),
        8 => s.append("8"),
        _ => s.append("9"),
    }
    proof {
        assert(final(s)@ =~= old(s)@ + seq![digit_char(d as int)]);
    }
}

/// Renders a number in decimal.
pub fn u64_to_string(n: u64) -> (r: String)
    ensures
        r@ == dec_chars(n as nat),
{
    let mut digits: Vec<u64> = Vec::new();
    let mut m: u64 = n;
    digits.push(m % 10);
    m = m / 10;
    proof {
        assert(digits@.last() == n % 10);
        assert(digits@.drop_last() =~= Seq::<u64>::empty());
        assert(rev_chars(Seq::<u64>::empty()) == Seq::<char>::empty());
        assert(rev_chars(digits@) == seq![digit_char((n % 10) as int)] + Seq::<char>::empty());
        if m == 0 {
            assert(rev_chars(digits@) =~= dec_chars(n as nat));
        } else {
            assert(dec_chars(n as nat) == dec_chars((n / 10) as nat) + seq![
                digit_char((n % 10) as int),
            ]);
            assert(dec_chars(n as nat) =~= dec_chars(m as nat) + rev_chars(digits@));
        }
    }
    while m > 0
        invariant
            digits@.len() >= 1,
            forall|j: int| 0 <= j < digits@.len() ==> #[trigger] digits@[j] < 10,
            m > 0 ==> dec_chars(n as nat) == dec_chars(m as nat) + rev_chars(digits@),
            m == 0 ==> dec_chars(n as nat) == rev_chars(digits@),
        decreases m,
    {
        let ghost digits_before = digits@;
        let ghost m_before = m as nat;
        digits.push(m % 10);
        m = m / 10;
        proof {
            assert(digits@.last() == m_before % 10);
            assert(digits@.drop_last() =~= digits_before);
            assert(rev_chars(digits@) == seq![digit_char((m_before % 10) as int)] + rev_chars(
                digits_before,
            ));
            if m > 0 {
                assert(dec_chars(m_before) == dec_chars(m_before / 10) + seq![
                    digit_char((m_before % 10) as int),
                ]);
                assert(dec_chars(m_before) + rev_chars(digits_before) =~= dec_chars(m as nat)
                    + rev_chars(digits@));
            } else {
                assert(m_before < 10);
                assert(dec_chars(m_before) == seq![digit_char(m_before as int)]);
                assert(dec_chars(m_before) + rev_chars(digits_before) =~= rev_chars(digits@));
            }
        }
    }
    let mut s = String::new();
    let mut i: usize = digits.len();
    while i > 0
        invariant
            i <= digits@.len(),
            forall|j: int| 0 <= j < digits@.len() ==> #[trigger] digits@[j] < 10,
            dec_chars(n as nat) == rev_chars(digits@),
            s@ == rev_chars(digits@.subrange(i as int, digits@.len() as int)),
        decreases i,
    {
        proof {
            assert(digits@.subrange(i as int - 1, digits@.len() as int) =~= seq![
                digits@[i as int - 1],
            ] + digits@.subrange(i as int, digits@.len() as int));
            lemma_rev_chars_cons(
                digits@[i as int - 1],
                digits@.subrange(i as int, digits@.len() as int),
            );
        }
        i = i - 1;
        push_digit(&mut s, digits[i]);
    }
    proof {
        assert(digits@.subrange(0, digits@.len() as int) =~= digits@);
    }
    s
}

/// The file-size text the input list shows: bytes below one kB, else
/// kilobytes or megabytes (decimal units) with one fractional digit,
/// rounded half up.
pub open spec fn spec_filesize_chars(size: nat) -> Seq<char> {
    if size < 1000 {
        dec_chars(size) + seq!['B']
    } else if size < 1000000 {
        let t = (size + 50) / 100;
        dec_chars(t / 10) + seq!['.'] + dec_chars(t % 10) + seq!['K', 'B']
    } else {
        let t = (size + 50000) / 100000;
        dec_chars(t / 10) + seq!['.'] + dec_chars(t % 10) + seq!['M', 'B']
    }
}

/// Renders a byte count the way the input list shows it.
pub fn bytes_to_filesize_str(size: u64) -> (r: String)
    ensures
        r@ == spec_filesize_chars(size as nat),
{
    proof {
        reveal_strlit("B");
        reveal_strlit(".");
        reveal_strlit("KB");
        reveal_strlit("MB");
    }
    if size < 1000 {
        let r = u64_to_string(size).concat("B");
        proof {
            assert(r@ =~= spec_filesize_chars(size as nat));
        }
        r
    } else if size < 1000000 {
        let t: u64 = (size + 50) / 100;
        let mut s = u64_to_string(t / 10);
        s.append(".");
        let frac = u64_to_string(t % 10);
        s.append(frac.as_str());
        s.append("KB");
        proof {
            assert(s@ =~= spec_filesize_chars(size as nat));
        }
        s
    } else {
        // size + 50000 could overflow a u64; hoist the quotient instead.
        let q: u64 = size / 100000;
        let rem: u64 = size % 100000;
        let t: u64 = q + (rem + 50000) / 100000;
        proof {
            lemma_fundamental_div_mod(size as int, 100000);
            lemma_hoist_over_denominator(rem as int + 50000, q as int, 100000nat);
            assert(t == ((size + 50000) as int) / 100000);
        }
        let mut s = u64_to_string(t / 10);
        s.append(".");
        let frac = u64_to_string(t % 10);
        s.append(frac.as_str());
        s.append("MB");
        proof {
            assert(s@ =~= spec_filesize_chars(size as nat));
        }
        s
    }
}

/// Whether a fetched release tag names a version other than the running
/// one: only then is an update offered.
pub fn needs_update(current: &String, latest: &String) -> (r: bool)
    ensures
        r == (current@ != latest@),
{
    !(*current == *latest)
}

/// The release asset's file name for a platform: the project name, the
/// operating system and the architecture, with an executable suffix on
/// Windows.
pub open spec fn spec_release_filename(os: Seq<char>, arch: Seq<char>) -> Seq<char> {
    "forte-"@ + os + "-"@ + arch + if os == "windows"@ {
        ".exe"@
    } else {
        Seq::<char>::empty()
    }
}

/// Where a release asset is downloaded from.
pub open spec fn spec_download_url(filename: Seq<char>) -> Seq<char> {
    "https://github.com/MyBlackMIDIScore/forte/releases/latest/download/"@ + filename
}

/// Builds the release asset's file name for a platform.
pub fn release_filename(os: &String, arch: &String) -> (r: String)
    ensures
        r@ == spec_release_filename(os@, arch@),
{
    let windows = "windows".to_owned();
    let mut s = "forte-".to_owned();
    s.append(os.as_str());
    s.append("-");
    s.append(arch.as_str());
    if *os == windows {
        s.append(".exe");
    }
    proof {
        if os@ != "windows"@ {
            assert(s@ =~= spec_release_filename(os@, arch@));
        }
    }
    s
}

/// Builds the address a release asset is downloaded from.
pub fn download_url(filename: &String) -> (r: String)
    ensures
        r@ == spec_download_url(filename@),
{
    let mut s = "https://github.com/MyBlackMIDIScore/forte/releases/latest/download/".to_owned();
    s.append(filename.as_str());
    s
}

/// The notice an available update shows: the new version, where to fetch
/// its asset, and the release notes.
pub struct UpdateMessage {
    pub version: String,
    pub url: String,
    pub body: String,
}

/// The update check's decision: given the running version and what the
/// release feed reported, the notice to show, or None when the feed gave
/// no tag or the tagged version is the one already running. A missing
/// release body leaves the notice's body empty.
pub fn check_for_updates(
    current: &String,
    tag: Option<String>,
    body: Option<String>,
    os: &String,
    arch: &String,
) -> (r: Option<UpdateMessage>)
    ensures
        tag is None ==> r is None,
        tag matches Some(t) ==> {
            &&& t@ == current@ ==> r is None
            &&& t@ != current@ ==> (r matches Some(m) && {
                &&& m.version@ == t@
                &&& m.url@ == spec_download_url(spec_release_filename(os@, arch@))
                &&& (body matches Some(b) ==> m.body@ == b@)
                &&& (body is None ==> m.body@ == Seq::<char>::empty())
            })
        },
{
    let latest = match tag {
        Some(t) => t,
        None => {
            return None;
        },
    };
    if !needs_update(current, &latest) {
        return None;
    }
    let url = download_url(&release_filename(os, arch));
    let body = match body {
        Some(b) => b,
        None => String::new(),
    };
    Some(UpdateMessage { version: latest, url, body })
}

} // verus!
