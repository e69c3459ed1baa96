//! Which directory entries may be shown: regular files whose lowercased name
//! ends in `.jpg` or `.jpeg`.
use vstd::prelude::*;
use vstd::std_specs::iter::IteratorSpec;

verus! {

/// What the rotation reads of one directory entry.
#[derive(Clone, Debug)]
pub struct EntryInfo {
    /// The entry's file name.
    pub name: String,
    /// `Some(true)` for a regular file, `Some(false)` for anything else,
    /// `None` where the file type could not be determined.
    pub is_file: Option<bool>,
}

/// `s` ends with `suffix`.
pub open spec fn ends_with_seq(s: Seq<char>, suffix: Seq<char>) -> bool {
    suffix.len() <= s.len() && s.subrange(s.len() - suffix.len(), s.len() as int) == suffix
}

/// The lowercase form of a name, as `str::to_lowercase` computes it.
pub uninterp spec fn lowercase_of(s: Seq<char>) -> Seq<char>;

/// An already lowercased name carries a photo extension.
pub open spec fn has_photo_extension(lowered: Seq<char>) -> bool {
    ends_with_seq(lowered, seq!['.', 'j', 'p', 'g'])
        || ends_with_seq(lowered, seq!['.', 'j', 'p', 'e', 'g'])
}

/// A name whose lowercase form carries a photo extension.
pub open spec fn is_photo_name(name: Seq<char>) -> bool {
    has_photo_extension(lowercase_of(name))
}

/// An entry that may be chosen: a regular file with a photo name.
pub open spec fn is_candidate(e: EntryInfo) -> bool {
    e.is_file == Some(true) && is_photo_name(e.name@)
}

/// The positions of the candidates among `entries`, in order.
pub open spec fn candidate_positions(entries: Seq<EntryInfo>) -> Seq<int>
    decreases entries.len(),
{
    if entries.len() == 0 {
        Seq::empty()
    } else {
        let front = candidate_positions(entries.drop_last());
        if is_candidate(entries.last()) {
            front.push(entries.len() - 1)
        } else {
            front
        }
    }
}

/// Relies on `str::to_lowercase`: its result depends on the characters alone.
#[verifier::external_body]
fn to_lowercase(s: &str) -> (r: String)
    ensures
        r@ == lowercase_of(s@),
{
    s.to_lowercase()
}

/// The characters of `s`, in order.
fn chars_of(s: &str) -> (r: Vec<char>)
    ensures
        r@ == s@,
{
    broadcast use vstd::string::axiom_spec_iter, vstd::string::next_postcondition;
    let mut it = s.chars();
    let mut r: Vec<char> = Vec::new();
    loop
        invariant
            it.obeys_prophetic_iter_laws(),
            it.decrease() is Some,
            r@ + it.remaining() == s@,
        decreases it.decrease()->0,
    {
        match it.next() {
            Some(c) => {
                r.push(c);
            },
            None => {
                assert(r@ + it.remaining() =~= r@);
                return r;
            },
        }
    }
}

/// `s` ends with `suffix`.
fn seq_ends_with(s: &Vec<char>, suffix: &Vec<char>) -> (r: bool)
    ensures
        r == ends_with_seq(s@, suffix@),
{
    if suffix.len() > s.len() {
        return false;
    }
    let n = s.len();
    let offset = n - suffix.len();
    let mut i: usize = 0;
    while i < suffix.len()
        invariant
            n == s@.len(),
            suffix@.len() <= s@.len(),
            offset + suffix@.len() == s@.len(),
            i <= suffix@.len(),
            forall|k: int| 0 <= k < i ==> s@[offset + k] == suffix@[k],
        decreases suffix@.len() - i,
    {
        if s[offset + i] != suffix[i] {
            assert(s@.subrange(offset as int, s@.len() as int)[i as int] != suffix@[i as int]);
            return false;
        }
        i = i + 1;
    }
    assert(s@.subrange(offset as int, s@.len() as int) =~= suffix@);
    true
}

/// `s` ends with `suffix`.
fn str_ends_with(s: &str, suffix: &str) -> (r: bool)
    ensures
        r == ends_with_seq(s@, suffix@),
{
    let sc = chars_of(s);
    let xc = chars_of(suffix);
    seq_ends_with(&sc, &xc)
}

/// Tests an already lowercased name for a photo extension.
pub fn has_photo_extension_lowered(lowered: &str) -> (r: bool)
    ensures
        r == has_photo_extension(lowered@),
{
    let jpg = ".jpg";
    let jpeg = ".jpeg";
    proof {
        reveal_strlit(".jpg");
        reveal_strlit(".jpeg");
        assert(jpg@ =~= seq!['.', 'j', 'p', 'g']);
        assert(jpeg@ =~= seq!['.', 'j', 'p', 'e', 'g']);
    }
    str_ends_with(lowered, jpg) || str_ends_with(lowered, jpeg)
}

/// Tests a file name, ignoring the case of its extension.
pub fn is_photo_file_name(name: &str) -> (r: bool)
    ensures
        r == is_photo_name(name@),
{
    let lowered = to_lowercase(name);
    has_photo_extension_lowered(lowered.as_str())
}

/// Tests one entry: a regular file with a photo name.
pub fn entry_is_candidate(e: &EntryInfo) -> (r: bool)
    ensures
        r == is_candidate(*e),
{
    match e.is_file {
        Some(true) => is_photo_file_name(e.name.as_str()),
        _ => false,
    }
}

/// The positions of the candidates among `entries`, in order: regular files
/// whose lowercased name ends in `.jpg` or `.jpeg`.
pub fn filter_candidates(entries: &Vec<EntryInfo>) -> (r: Vec<usize>)
    ensures
        r@.map_values(|i: usize| i as int) == candidate_positions(entries@),
{
    let mut r: Vec<usize> = Vec::new();
    let mut i: usize = 0;
    while i < entries.len()
        invariant
            i <= entries@.len(),
            r@.map_values(|k: usize| k as int) == candidate_positions(entries@.subrange(0, i as int)),
        decreases entries@.len() - i,
    {
        let ghost before = entries@.subrange(0, i as int);
        let ghost after = entries@.subrange(0, i + 1);
        assert(after.drop_last() =~= before);
        if entry_is_candidate(&entries[i]) {
            r.push(i);
        }
        assert(r@.map_values(|k: usize| k as int) =~= candidate_positions(after));
        i = i + 1;
    }
    assert(entries@.subrange(0, entries@.len() as int) =~= entries@);
    r
}

} // verus!
