use vstd::prelude::*;

verus! {

/// Paths come from the driver framework as UTF-16 code units, with either
/// slash as separator.
pub open spec fn is_separator(c: u16) -> bool {
    c == '\\' as u16 || c == '/' as u16
}

pub open spec fn system_volume_information() -> Seq<u16> {
    seq![
        'S' as u16, 'y' as u16, 's' as u16, 't' as u16, 'e' as u16, 'm' as u16, ' ' as u16,
        'V' as u16, 'o' as u16, 'l' as u16, 'u' as u16, 'm' as u16, 'e' as u16, ' ' as u16,
        'I' as u16, 'n' as u16, 'f' as u16, 'o' as u16, 'r' as u16, 'm' as u16, 'a' as u16,
        't' as u16, 'i' as u16, 'o' as u16, 'n' as u16,
    ]
}

pub open spec fn recycle_bin() -> Seq<u16> {
    seq![
        '$' as u16, 'R' as u16, 'E' as u16, 'C' as u16, 'Y' as u16, 'C' as u16, 'L' as u16,
        'E' as u16, '.' as u16, 'B' as u16, 'I' as u16, 'N' as u16,
    ]
}

/// `p` is the directory `dir` right under the root, or something inside it.
pub open spec fn is_within_top_dir(p: Seq<u16>, dir: Seq<u16>) -> bool {
    let n = dir.len() as int;
    &&& p.len() >= n + 1
    &&& is_separator(p[0])
    &&& p.subrange(1, n + 1) == dir
    &&& (p.len() == n + 1 || is_separator(p[n + 1]))
}

/// Paths under the system directories that the volume never serves.
pub open spec fn is_reserved(p: Seq<u16>) -> bool {
    is_within_top_dir(p, system_volume_information()) || is_within_top_dir(p, recycle_bin())
}

/// The root of the volume.
pub open spec fn is_root(p: Seq<u16>) -> bool {
    p.len() == 1 && is_separator(p[0])
}

fn system_volume_information_units() -> (r: Vec<u16>)
    ensures
        r@ == system_volume_information(),
{
    let r = vec![
        'S' as u16, 'y' as u16, 's' as u16, 't' as u16, 'e' as u16, 'm' as u16, ' ' as u16,
        'V' as u16, 'o' as u16, 'l' as u16, 'u' as u16, 'm' as u16, 'e' as u16, ' ' as u16,
        'I' as u16, 'n' as u16, 'f' as u16, 'o' as u16, 'r' as u16, 'm' as u16, 'a' as u16,
        't' as u16, 'i' as u16, 'o' as u16, 'n' as u16,
    ];
    assert(r@ =~= system_volume_information());
    r
}

fn recycle_bin_units() -> (r: Vec<u16>)
    ensures
        r@ == recycle_bin(),
{
    let r = vec![
        '$' as u16, 'R' as u16, 'E' as u16, 'C' as u16, 'Y' as u16, 'C' as u16, 'L' as u16,
        'E' as u16, '.' as u16, 'B' as u16, 'I' as u16, 'N' as u16,
    ];
    assert(r@ =~= recycle_bin());
    r
}

fn separator(c: u16) -> (r: bool)
    ensures
        r == is_separator(c),
{
    c == '\\' as u16 || c == '/' as u16
}

fn within_top_dir(p: &[u16], dir: &Vec<u16>) -> (r: bool)
    ensures
        r == is_within_top_dir(p@, dir@),
{
    let n = dir.len();
    if p.len() <= n || !separator(p[0]) {
        return false;
    }
    let mut i: usize = 0;
    while i < n
        invariant
            i <= n,
            n == dir@.len(),
            p@.len() >= n + 1,
            forall|j: int| 0 <= j < i ==> p@[j + 1] == dir@[j],
        decreases n - i,
    {
        if p[i + 1] != dir[i] {
            assert(p@.subrange(1, n + 1)[i as int] != dir@[i as int]);
            return false;
        }
        i = i + 1;
    }
    assert(p@.subrange(1, n + 1 as int) =~= dir@);
    p.len() == n + 1 || separator(p[n + 1])
}

/// Whether `p` lies under one of the system directories that are not served.
pub fn is_reserved_path(p: &[u16]) -> (r: bool)
    ensures
        r == is_reserved(p@),
{
    within_top_dir(p, &system_volume_information_units())
        || within_top_dir(p, &recycle_bin_units())
}

/// Whether `p` is the root of the volume.
pub fn is_root_path(p: &[u16]) -> (r: bool)
    ensures
        r == is_root(p@),
{
    p.len() == 1 && separator(p[0])
}

pub open spec fn is_high_surrogate(c: u16) -> bool {
    0xD800 <= c <= 0xDBFF
}

pub open spec fn is_low_surrogate(c: u16) -> bool {
    0xDC00 <= c <= 0xDFFF
}

/// Every leading surrogate is followed by a trailing one, and every trailing
/// surrogate follows a leading one.
pub open spec fn is_well_formed_utf16(w: Seq<u16>) -> bool {
    forall|i: int|
        #![trigger w[i]]
        0 <= i < w.len() ==> {
            &&& (is_high_surrogate(w[i]) ==> i + 1 < w.len() && is_low_surrogate(w[i + 1]))
            &&& (is_low_surrogate(w[i]) ==> i > 0 && is_high_surrogate(w[i - 1]))
        }
}

/// The text that well-formed UTF-16 code units encode.
pub uninterp spec fn utf16_text(w: Seq<u16>) -> Seq<char>;

/// Relies on `String::from_utf16`: it succeeds exactly on well-formed UTF-16
/// and then holds the text encoded; no units give the empty string.
#[verifier::external_body]
fn decode_utf16(w: &[u16]) -> (r: Option<String>)
    ensures
        r is Some <==> is_well_formed_utf16(w@),
        r matches Some(s) ==> s@ == utf16_text(w@),
        r matches Some(s) ==> (w@.len() == 0 ==> s@.len() == 0),
{
    String::from_utf16(w).ok()
}

/// Backslashes become forward slashes; every other unit stays.
pub open spec fn with_forward_slashes(p: Seq<u16>) -> Seq<u16> {
    p.map_values(|c: u16| if c == '\\' as u16 { '/' as u16 } else { c })
}

/// The path that the storage service is asked for: the root is the empty
/// path of the account, any other path has its separators turned around.
pub open spec fn remote_units(p: Seq<u16>) -> Seq<u16> {
    if p == seq!['\\' as u16] {
        Seq::empty()
    } else {
        with_forward_slashes(p)
    }
}

proof fn lemma_remote_units_well_formed(p: Seq<u16>)
    ensures
        is_well_formed_utf16(remote_units(p)) == is_well_formed_utf16(p),
{
    let q = remote_units(p);
    if p != seq!['\\' as u16] {
        assert forall|i: int| 0 <= i < p.len() implies
            (is_high_surrogate(q[i]) == is_high_surrogate(p[i]))
            && (is_low_surrogate(q[i]) == is_low_surrogate(p[i])) by {}
        if is_well_formed_utf16(p) {
            assert forall|i: int| #![trigger q[i]] 0 <= i < q.len() implies {
                &&& (is_high_surrogate(q[i]) ==> i + 1 < q.len() && is_low_surrogate(q[i + 1]))
                &&& (is_low_surrogate(q[i]) ==> i > 0 && is_high_surrogate(q[i - 1]))
            } by {
                assert(is_high_surrogate(p[i]) ==> i + 1 < p.len() && is_low_surrogate(p[i + 1]));
                assert(is_low_surrogate(p[i]) ==> i > 0 && is_high_surrogate(p[i - 1]));
            }
        }
        if is_well_formed_utf16(q) {
            assert forall|i: int| #![trigger p[i]] 0 <= i < p.len() implies {
                &&& (is_high_surrogate(p[i]) ==> i + 1 < p.len() && is_low_surrogate(p[i + 1]))
                &&& (is_low_surrogate(p[i]) ==> i > 0 && is_high_surrogate(p[i - 1]))
            } by {
                assert(is_high_surrogate(q[i]) ==> i + 1 < q.len() && is_low_surrogate(q[i + 1]));
                assert(is_low_surrogate(q[i]) ==> i > 0 && is_high_surrogate(q[i - 1]));
            }
        }
    } else {
        assert(!is_high_surrogate(p[0]) && !is_low_surrogate(p[0]));
    }
}

/// The account-relative path to list for the directory `file_name`, or
/// `None` where `file_name` is no well-formed UTF-16.
pub fn remote_list_path(file_name: &[u16]) -> (r: Option<String>)
    ensures
        r is Some <==> is_well_formed_utf16(file_name@),
        r matches Some(s) ==> s@ == utf16_text(remote_units(file_name@)),
{
    let mut units: Vec<u16> = Vec::new();
    if !(file_name.len() == 1 && file_name[0] == '\\' as u16) {
        let mut i: usize = 0;
        while i < file_name.len()
            invariant
                i <= file_name@.len(),
                units@ == with_forward_slashes(file_name@).subrange(0, i as int),
            decreases file_name@.len() - i,
        {
            let c = file_name[i];
            units.push(if c == '\\' as u16 { '/' as u16 } else { c });
            i = i + 1;
            assert(units@ =~= with_forward_slashes(file_name@).subrange(0, i as int));
        }
        assert(units@ =~= with_forward_slashes(file_name@));
    } else {
        assert(file_name@ =~= seq!['\\' as u16]);
    }
    assert(units@ =~= remote_units(file_name@));
    proof {
        lemma_remote_units_well_formed(file_name@);
    }
    decode_utf16(units.as_slice())
}

} // verus!
