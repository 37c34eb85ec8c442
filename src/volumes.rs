use vstd::prelude::*;

verus! {

/// A candidate volume root and whether probing it succeeded.
#[derive(Clone, Debug)]
pub struct VolumeProbe {
    pub path: String,
    pub available: bool,
}

/// The letters that name volumes on letter-addressed layouts.
pub open spec fn volume_letters() -> Seq<char> {
    seq![
        'A', 'B', 'C', 'D', 'E', 'F', 'G', 'H', 'I', 'J', 'K', 'L', 'M',
        'N', 'O', 'P', 'Q', 'R', 'S', 'T', 'U', 'V', 'W', 'X', 'Y', 'Z',
    ]
}

/// The root of the volume with letter `c`, such as `C:\`.
pub open spec fn letter_root(c: char) -> Seq<char> {
    seq![c, ':', '\\']
}

/// The paths of the available probes, in order.
pub open spec fn available_paths(probes: Seq<VolumeProbe>) -> Seq<Seq<char>>
    decreases probes.len(),
{
    if probes.len() == 0 {
        Seq::empty()
    } else {
        let rest = available_paths(probes.drop_last());
        if probes.last().available {
            rest.push(probes.last().path@)
        } else {
            rest
        }
    }
}

/// The candidate roots of a letter-addressed layout, `A:\` to `Z:\`, for the
/// caller to probe.
pub fn drive_letter_roots() -> (r: Vec<String>)
    ensures
        r@.len() == 26,
        forall|k: int| 0 <= k < 26 ==> #[trigger] r@[k]@ == letter_root(volume_letters()[k]),
{
    let letters = "ABCDEFGHIJKLMNOPQRSTUVWXYZ";
    proof {
        reveal_strlit("ABCDEFGHIJKLMNOPQRSTUVWXYZ");
        reveal_strlit(":\\");
        assert(letters@ =~= volume_letters());
    }
    let mut r: Vec<String> = Vec::new();
    let mut k: usize = 0;
    while k < 26
        invariant
            k <= 26,
            letters@ == volume_letters(),
            ":\\"@ == seq![':', '\\'],
            r@.len() == k,
            forall|j: int| 0 <= j < k ==> #[trigger] r@[j]@ == letter_root(volume_letters()[j]),
        decreases 26 - k,
    {
        let root = String::from_str(letters.substring_char(k, k + 1)).concat(":\\");
        assert(root@ =~= letter_root(volume_letters()[k as int]));
        r.push(root);
        k = k + 1;
    }
    r
}

/// The volumes to search: the probed roots that are available, in the order
/// given. An unavailable root is left out rather than reported.
pub fn get_available_drives(probes: &Vec<VolumeProbe>) -> (r: Vec<String>)
    ensures
        r@.map_values(|s: String| s@) == available_paths(probes@),
{
    let mut r: Vec<String> = Vec::new();
    let mut i: usize = 0;
    while i < probes.len()
        invariant
            i <= probes.len(),
            r@.map_values(|s: String| s@) == available_paths(probes@.take(i as int)),
        decreases probes.len() - i,
    {
        proof {
            assert(probes@.take(i + 1).drop_last() =~= probes@.take(i as int));
        }
        if probes[i].available {
            let ghost before = r@;
            r.push(probes[i].path.clone());
            assert(r@.map_values(|s: String| s@) =~= before.map_values(|s: String| s@).push(
                probes@[i as int].path@,
            ));
        }
        i = i + 1;
    }
    assert(probes@.take(i as int) =~= probes@);
    r
}

} // verus!
