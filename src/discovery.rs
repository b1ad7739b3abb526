use vstd::prelude::*;

verus! {

/// USB vendor id under which the controller enumerates.
pub const DS4_VENDOR_ID: u16 = 1356;

/// Index of the first device, in enumeration order, whose vendor id is
/// [`DS4_VENDOR_ID`]; `None` when there is none.
pub fn find_ds4(vendor_ids: &[u16]) -> (r: Option<usize>)
    ensures
        r matches Some(i) ==> i < vendor_ids@.len() && vendor_ids@[i as int] == DS4_VENDOR_ID
            && forall|j: int| 0 <= j < i ==> vendor_ids@[j] != DS4_VENDOR_ID,
        r is None ==> forall|j: int| 0 <= j < vendor_ids@.len() ==> vendor_ids@[j] != DS4_VENDOR_ID,
{
    let mut i: usize = 0;
    while i < vendor_ids.len()
        invariant
            i <= vendor_ids@.len(),
            forall|j: int| 0 <= j < i ==> vendor_ids@[j] != DS4_VENDOR_ID,
        decreases vendor_ids@.len() - i,
    {
        if vendor_ids[i] == DS4_VENDOR_ID {
            return Some(i);
        }
        i = i + 1;
    }
    None
}

} // verus!
