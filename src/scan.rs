//! The decisions of a directory scan: which entries are images to read, and
//! what is reported for each of them.
use vstd::prelude::*;

use crate::exposure::{ApexValue, ExifReading, Exposure};

verus! {

/// A byte in ASCII lower case.
pub open spec fn ascii_lower(c: u8) -> u8 {
    if 65 <= c <= 90 {
        (c + 32) as u8
    } else {
        c
    }
}

/// The extension of a JPEG image, in lower case: `jpg`.
pub open spec fn jpeg_extension() -> Seq<u8> {
    seq![106u8, 112u8, 103u8]
}

/// `ext` is `jpg` in any mix of ASCII case.
pub open spec fn is_jpeg_spec(ext: Seq<u8>) -> bool {
    ext.len() == jpeg_extension().len()
        && forall|i: int| 0 <= i < ext.len() ==> ascii_lower(#[trigger] ext[i]) == jpeg_extension()[i]
}

/// An entry with an extension that is `jpg` in any case.
pub open spec fn is_candidate(ext: Option<Vec<u8>>) -> bool {
    ext matches Some(v) && is_jpeg_spec(v@)
}

/// The indices, in listing order, of the candidates among the first `n`
/// entries.
pub open spec fn candidates_upto(exts: Seq<Option<Vec<u8>>>, n: int) -> Seq<usize>
    decreases n,
{
    if n <= 0 {
        seq![]
    } else if is_candidate(exts[n - 1]) {
        candidates_upto(exts, n - 1).push((n - 1) as usize)
    } else {
        candidates_upto(exts, n - 1)
    }
}

fn lower_byte(c: u8) -> (r: u8)
    ensures
        r == ascii_lower(c),
{
    if 65 <= c && c <= 90 {
        c + 32
    } else {
        c
    }
}

/// Whether a file extension is `jpg`, compared without regard to ASCII
/// case; an entry without an extension is no image.
pub fn is_jpeg_extension(ext: Option<&[u8]>) -> (r: bool)
    ensures
        r == (ext is Some && is_jpeg_spec(ext.unwrap()@)),
{
    let e = match ext {
        Some(e) => e,
        None => return false,
    };
    if e.len() != 3 {
        return false;
    }
    let expected: [u8; 3] = [106u8, 112u8, 103u8];
    assert(expected@ =~= jpeg_extension());
    let mut i: usize = 0;
    while i < 3
        invariant
            ext == Some(e),
            e@.len() == 3,
            expected@ == jpeg_extension(),
            0 <= i <= 3,
            forall|k: int| 0 <= k < i ==> ascii_lower(#[trigger] e@[k]) == jpeg_extension()[k],
        decreases 3 - i,
    {
        let c = lower_byte(e[i]);
        if c != expected[i] {
            assert(ascii_lower(e@[i as int]) != jpeg_extension()[i as int]);
            return false;
        }
        i = i + 1;
    }
    true
}

/// The indices of the entries to read, in listing order: those whose
/// extension is `jpg` in any case. Entries without an extension, or with
/// another one, are passed over.
pub fn select_candidates(exts: &Vec<Option<Vec<u8>>>) -> (r: Vec<usize>)
    ensures
        r@ == candidates_upto(exts@, exts@.len() as int),
{
    let mut r: Vec<usize> = Vec::new();
    let mut i: usize = 0;
    while i < exts.len()
        invariant
            0 <= i <= exts@.len(),
            r@ == candidates_upto(exts@, i as int),
        decreases exts@.len() - i,
    {
        let keep = match &exts[i] {
            Some(v) => is_jpeg_extension(Some(v.as_slice())),
            None => false,
        };
        if keep {
            r.push(i);
        }
        i = i + 1;
    }
    r
}

/// The selection among the first `n` entries holds exactly the candidates,
/// each once, in listing order: an entry without an extension or with one
/// other than `jpg` (in any case) is never read.
pub proof fn lemma_candidates_exact(exts: Seq<Option<Vec<u8>>>, n: int)
    requires
        0 <= n <= exts.len() <= usize::MAX,
    ensures
        forall|i: int|
            0 <= i < n ==> (candidates_upto(exts, n).contains(i as usize) <==> is_candidate(
                #[trigger] exts[i],
            )),
        forall|j: int|
            0 <= j < candidates_upto(exts, n).len() ==> #[trigger] candidates_upto(exts, n)[j]
                < n,
        forall|j: int, k: int|
            0 <= j < k < candidates_upto(exts, n).len() ==> candidates_upto(exts, n)[j]
                < candidates_upto(exts, n)[k],
    decreases n,
{
    if n > 0 {
        lemma_candidates_exact(exts, n - 1);
        let prev = candidates_upto(exts, n - 1);
        let cur = candidates_upto(exts, n);
        assert forall|i: int| 0 <= i < n implies (cur.contains(i as usize) <==> is_candidate(
            #[trigger] exts[i],
        )) by {
            if i < n - 1 {
                if cur.contains(i as usize) && !prev.contains(i as usize) {
                    let w = choose|w: int| 0 <= w < cur.len() && cur[w] == i as usize;
                    assert(w == prev.len());
                }
                if prev.contains(i as usize) {
                    let w = choose|w: int| 0 <= w < prev.len() && prev[w] == i as usize;
                    assert(cur[w] == i as usize);
                }
            } else {
                if is_candidate(exts[i]) {
                    assert(cur[prev.len() as int] == i as usize);
                } else if cur.contains(i as usize) {
                    let w = choose|w: int| 0 <= w < cur.len() && cur[w] == i as usize;
                    assert(prev[w] < n - 1);
                }
            }
        }
    }
}

/// Whether an extension is `jpg` depends on its letters alone, not on their
/// case: two extensions that agree in lower case are both candidates or both
/// not.
pub proof fn lemma_extension_case_insensitive(a: Seq<u8>, b: Seq<u8>)
    requires
        a.len() == b.len(),
        forall|i: int| 0 <= i < a.len() ==> ascii_lower(#[trigger] a[i]) == ascii_lower(b[i]),
    ensures
        is_jpeg_spec(a) == is_jpeg_spec(b),
{
    if is_jpeg_spec(a) {
        assert forall|i: int| 0 <= i < b.len() implies ascii_lower(#[trigger] b[i])
            == jpeg_extension()[i] by {
            assert(ascii_lower(a[i]) == jpeg_extension()[i]);
        }
    }
    if is_jpeg_spec(b) {
        assert forall|i: int| 0 <= i < a.len() implies ascii_lower(#[trigger] a[i])
            == jpeg_extension()[i] by {
            assert(ascii_lower(b[i]) == jpeg_extension()[i]);
        }
    }
}

/// A directory with no entries has nothing to read.
pub proof fn lemma_no_entries_no_candidates(exts: Seq<Option<Vec<u8>>>)
    requires
        exts.len() == 0,
    ensures
        candidates_upto(exts, exts.len() as int).len() == 0,
{
}

/// What is reported for one image.
#[derive(Clone, Copy, Debug, PartialEq, Eq, Structural)]
pub enum FileReport {
    /// No exposure could be read: the file is skipped.
    Skipped,
    /// The exposure read, with its aperture estimates.
    Estimated {
        exposure: Exposure,
        from_ev: Option<ApexValue>,
        from_tv: Option<ApexValue>,
    },
}

/// The report for one image, given its metadata readings, or `None` when its
/// metadata could not be opened.
pub fn report_file(reading: Option<&ExifReading>) -> (r: FileReport)
    ensures
        r is Skipped <==> (reading matches Some(m) ==> Exposure::of_reading(*m) is None),
        r matches FileReport::Estimated { exposure, from_ev, from_tv } ==> {
            &&& reading matches Some(m) && Exposure::of_reading(*m) == Some(exposure)
            &&& exposure.wf()
            &&& exposure.are_estimates((from_ev, from_tv))
        },
{
    match reading {
        None => FileReport::Skipped,
        Some(m) => match Exposure::from_exif(m) {
            None => FileReport::Skipped,
            Some(exposure) => {
                let (from_ev, from_tv) = exposure.compute_aperture();
                FileReport::Estimated { exposure, from_ev, from_tv }
            },
        },
    }
}

} // verus!
