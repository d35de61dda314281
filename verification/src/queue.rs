use vstd::prelude::*;
use crate::errors::SuitabilityError;

verus! {

/// What the driver reports of one queue family on a physical device, taken
/// against a fixed surface: whether the family accepts graphics submissions,
/// and whether it can present to that surface.
#[derive(Clone, Copy, Debug, PartialEq, Eq, Structural)]
pub struct QueueFamily {
    pub graphics: bool,
    pub present: bool,
}

/// The chosen graphics-capable and present-capable family indices on one
/// physical device. The two indices may be equal or different; both must be
/// valid on the same device before it is considered suitable.
#[derive(Clone, Copy, Debug, PartialEq, Eq, Structural)]
pub struct QueueFamilyIndices {
    pub graphics: u32,
    pub present: u32,
}

/// Some family in `s` accepts graphics submissions.
pub open spec fn has_graphics(s: Seq<QueueFamily>) -> bool {
    exists|i: int| 0 <= i < s.len() && s[i].graphics
}

/// Some family in `s` can present to the surface.
pub open spec fn has_present(s: Seq<QueueFamily>) -> bool {
    exists|i: int| 0 <= i < s.len() && s[i].present
}

/// `g` is the first graphics-capable index in `s`, in driver-reported order.
pub open spec fn first_graphics_at(s: Seq<QueueFamily>, g: int) -> bool {
    &&& 0 <= g < s.len()
    &&& s[g].graphics
    &&& forall|j: int| 0 <= j < g ==> !s[j].graphics
}

/// `p` is the first present-capable index in `s`, in driver-reported order.
pub open spec fn first_present_at(s: Seq<QueueFamily>, p: int) -> bool {
    &&& 0 <= p < s.len()
    &&& s[p].present
    &&& forall|j: int| 0 <= j < p ==> !s[j].present
}

/// `ix` holds exactly the resolved indices for the family list `s`: each
/// field is the first match of its search, with no scoring among later ones.
pub open spec fn resolves_to(s: Seq<QueueFamily>, ix: QueueFamilyIndices) -> bool {
    &&& first_graphics_at(s, ix.graphics as int)
    &&& first_present_at(s, ix.present as int)
}

impl QueueFamilyIndices {
    /// Walks the family list in driver-reported order and picks the first
    /// graphics-capable index and the first present-capable index. Fails
    /// exactly when either search yields no match; never panics, also on an
    /// empty list.
    pub fn resolve(families: &Vec<QueueFamily>) -> (r: Result<QueueFamilyIndices, SuitabilityError>)
        requires
            families@.len() <= u32::MAX,
        ensures
            r is Ok <==> has_graphics(families@) && has_present(families@),
            r matches Ok(ix) ==> resolves_to(families@, ix),
            r matches Err(e) ==> e.0@ == "Missing required queue families"@,
    {
        let n = families.len();
        let mut graphics: Option<u32> = None;
        let mut present: Option<u32> = None;
        let mut i: usize = 0;
        while i < n
            invariant
                n == families@.len() <= u32::MAX,
                i <= n,
                graphics matches Some(g) ==> first_graphics_at(families@, g as int),
                graphics is None ==> forall|j: int| 0 <= j < i ==> !families@[j].graphics,
                present matches Some(p) ==> first_present_at(families@, p as int),
                present is None ==> forall|j: int| 0 <= j < i ==> !families@[j].present,
            decreases n - i,
        {
            if graphics.is_none() && families[i].graphics {
                graphics = Some(i as u32);
            }
            if present.is_none() && families[i].present {
                present = Some(i as u32);
            }
            i = i + 1;
        }
        match (graphics, present) {
            (Some(g), Some(p)) => Ok(QueueFamilyIndices { graphics: g, present: p }),
            _ => Err(SuitabilityError("Missing required queue families")),
        }
    }
}

} // verus!
