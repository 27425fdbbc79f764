//! Choosing the queue families a logical device is created with.

use vstd::prelude::*;
use std::collections::HashSet;
use vstd::std_specs::iter::IteratorSpec;

verus! {

/// What the family selection reads of one queue family of a physical device:
/// which kinds of work it accepts and whether it can present to the surface.
#[derive(Debug, Clone, Copy, PartialEq, Eq)]
pub struct QueueFamilyCaps {
    pub graphics: bool,
    pub compute: bool,
    pub transfer: bool,
    pub present: bool,
}

/// The `VkQueueFlagBits` bit of families that accept graphics work.
pub const QUEUE_GRAPHICS_BIT: u32 = 0x1;

/// The `VkQueueFlagBits` bit of families that accept compute work.
pub const QUEUE_COMPUTE_BIT: u32 = 0x2;

/// The `VkQueueFlagBits` bit of families that accept transfer work.
pub const QUEUE_TRANSFER_BIT: u32 = 0x4;

/// The raw value of `ash::vk::QueueFlags::GRAPHICS`, which ash defines as
/// `0b1`.
#[verifier::external_body]
fn graphics_bit() -> (r: u32)
    ensures
        r == QUEUE_GRAPHICS_BIT,
{
    ash::vk::QueueFlags::GRAPHICS.as_raw()
}

/// The raw value of `ash::vk::QueueFlags::COMPUTE`, which ash defines as
/// `0b10`.
#[verifier::external_body]
fn compute_bit() -> (r: u32)
    ensures
        r == QUEUE_COMPUTE_BIT,
{
    ash::vk::QueueFlags::COMPUTE.as_raw()
}

/// The raw value of `ash::vk::QueueFlags::TRANSFER`, which ash defines as
/// `0b100`.
#[verifier::external_body]
fn transfer_bit() -> (r: u32)
    ensures
        r == QUEUE_TRANSFER_BIT,
{
    ash::vk::QueueFlags::TRANSFER.as_raw()
}

/// Calls `ash::vk::QueueFlags::contains` on the flags with raw values
/// `flags` and `bit`; ash's `contains` is true exactly when every bit of
/// `bit` is set in `flags`.
#[verifier::external_body]
fn queue_flags_contains(flags: u32, bit: u32) -> (r: bool)
    ensures
        r == (flags & bit == bit),
{
    ash::vk::QueueFlags::from_raw(flags).contains(ash::vk::QueueFlags::from_raw(bit))
}

/// What the family selection reads of a queue family with the given
/// `VkQueueFlags` bits, which can present to the surface or not.
pub fn queue_family_caps(queue_flags: u32, can_present: bool) -> (r: QueueFamilyCaps)
    ensures
        r == (QueueFamilyCaps {
            graphics: queue_flags & QUEUE_GRAPHICS_BIT == QUEUE_GRAPHICS_BIT,
            compute: queue_flags & QUEUE_COMPUTE_BIT == QUEUE_COMPUTE_BIT,
            transfer: queue_flags & QUEUE_TRANSFER_BIT == QUEUE_TRANSFER_BIT,
            present: can_present,
        }),
        r.graphics == (queue_flags & 1u32 == 1u32),
        r.compute == (queue_flags & 2u32 == 2u32),
        r.transfer == (queue_flags & 4u32 == 4u32),
        r.present == can_present,
{
    QueueFamilyCaps {
        graphics: queue_flags_contains(queue_flags, graphics_bit()),
        compute: queue_flags_contains(queue_flags, compute_bit()),
        transfer: queue_flags_contains(queue_flags, transfer_bit()),
        present: can_present,
    }
}

/// The queue family index chosen for each kind of work.
#[derive(Debug, Clone, Copy, PartialEq, Eq)]
pub struct QueueFamilies {
    pub graphics: u32,
    pub present: u32,
    pub compute: u32,
    pub transfer: u32,
}

/// Why no queue families could be chosen.
#[derive(Debug, Clone, Copy, PartialEq, Eq)]
pub enum QueueFamilyError {
    /// The driver failed to report the queue families (the Vulkan result code).
    FailedToGetQueueFamilyProperties(i32),
    /// No queue family supports graphics operations.
    NoGraphicsQueueFamily,
    /// No queue family supports presentation to the given surface.
    NoPresentQueueFamily,
}

/// The index of the first element of `s` that satisfies `p`, if any.
pub open spec fn first_match(s: Seq<QueueFamilyCaps>, p: spec_fn(QueueFamilyCaps) -> bool) -> Option<int>
    decreases s.len(),
{
    if s.len() == 0 {
        None
    } else {
        match first_match(s.drop_last(), p) {
            Some(i) => Some(i),
            None => if p(s.last()) {
                Some(s.len() - 1)
            } else {
                None
            },
        }
    }
}

pub open spec fn is_graphics(c: QueueFamilyCaps) -> bool {
    c.graphics
}

pub open spec fn is_present(c: QueueFamilyCaps) -> bool {
    c.present
}

pub open spec fn is_graphics_present(c: QueueFamilyCaps) -> bool {
    c.graphics && c.present
}

pub open spec fn is_compute(c: QueueFamilyCaps) -> bool {
    c.compute
}

/// A compute family that does no graphics.
pub open spec fn is_dedicated_compute(c: QueueFamilyCaps) -> bool {
    c.compute && !c.graphics
}

pub open spec fn is_transfer(c: QueueFamilyCaps) -> bool {
    c.transfer
}

/// A transfer family that does neither graphics nor compute.
pub open spec fn is_dedicated_transfer(c: QueueFamilyCaps) -> bool {
    c.transfer && !c.graphics && !c.compute
}

/// The first family that satisfies `preferred`, else the first that
/// satisfies `acceptable`, else none.
pub open spec fn prefer_first(
    s: Seq<QueueFamilyCaps>,
    preferred: spec_fn(QueueFamilyCaps) -> bool,
    acceptable: spec_fn(QueueFamilyCaps) -> bool,
) -> Option<int> {
    if first_match(s, preferred) is Some {
        first_match(s, preferred)
    } else {
        first_match(s, acceptable)
    }
}

/// The graphics family: the first that can both draw and present, else the
/// first that can draw.
pub open spec fn graphics_choice(s: Seq<QueueFamilyCaps>) -> Option<int> {
    prefer_first(s, |c| is_graphics_present(c), |c| is_graphics(c))
}

/// The present family: the first that can both draw and present, else the
/// first that can present.
pub open spec fn present_choice(s: Seq<QueueFamilyCaps>) -> Option<int> {
    prefer_first(s, |c| is_graphics_present(c), |c| is_present(c))
}

/// The compute family: the first dedicated compute family, else the first
/// compute family.
pub open spec fn compute_choice(s: Seq<QueueFamilyCaps>) -> Option<int> {
    prefer_first(s, |c| is_dedicated_compute(c), |c| is_compute(c))
}

/// The transfer family: the first dedicated transfer family, else the first
/// transfer family.
pub open spec fn transfer_choice(s: Seq<QueueFamilyCaps>) -> Option<int> {
    prefer_first(s, |c| is_dedicated_transfer(c), |c| is_transfer(c))
}

/// The queue families chosen among `s`, or why there are none: graphics and
/// present as above (both required); compute falls back to the graphics
/// family and transfer to the compute family when no family offers them.
pub open spec fn queue_families_spec(s: Seq<QueueFamilyCaps>) -> Result<QueueFamilies, QueueFamilyError> {
    if graphics_choice(s) is None {
        Err(QueueFamilyError::NoGraphicsQueueFamily)
    } else if present_choice(s) is None {
        Err(QueueFamilyError::NoPresentQueueFamily)
    } else {
        let g = graphics_choice(s)->0;
        let c = match compute_choice(s) {
            Some(i) => i,
            None => g,
        };
        let t = match transfer_choice(s) {
            Some(i) => i,
            None => c,
        };
        Ok(
            QueueFamilies {
                graphics: g as u32,
                present: present_choice(s)->0 as u32,
                compute: c as u32,
                transfer: t as u32,
            },
        )
    }
}

/// A family position as the `u32` index Vulkan uses.
pub open spec fn as_family_index(o: Option<int>) -> Option<u32> {
    match o {
        Some(i) => Some(i as u32),
        None => None,
    }
}

/// `first_match` finds the first element that satisfies `p`.
pub proof fn lemma_first_match(s: Seq<QueueFamilyCaps>, p: spec_fn(QueueFamilyCaps) -> bool)
    ensures
        first_match(s, p) matches Some(i) ==> {
            &&& 0 <= i < s.len()
            &&& p(s[i])
            &&& forall|j: int| 0 <= j < i ==> !p(#[trigger] s[j])
        },
        first_match(s, p) is None ==> forall|j: int| 0 <= j < s.len() ==> !p(#[trigger] s[j]),
    decreases s.len(),
{
    if s.len() > 0 {
        let t = s.drop_last();
        lemma_first_match(t, p);
        assert forall|j: int| 0 <= j < s.len() - 1 implies #[trigger] s[j] == t[j] by {}
        match first_match(t, p) {
            Some(i) => {
                assert forall|j: int| 0 <= j < i implies !p(#[trigger] s[j]) by {
                    assert(s[j] == t[j]);
                }
            },
            None => {
                assert forall|j: int| 0 <= j < s.len() - 1 implies !p(#[trigger] s[j]) by {
                    assert(s[j] == t[j]);
                }
            },
        }
    }
}

/// One more element: the first match in `s.take(i + 1)`.
proof fn lemma_first_match_step(s: Seq<QueueFamilyCaps>, p: spec_fn(QueueFamilyCaps) -> bool, i: int)
    requires
        0 <= i < s.len(),
    ensures
        first_match(s.take(i + 1), p) == (match first_match(s.take(i), p) {
            Some(k) => Some(k),
            None => if p(s[i]) {
                Some(i)
            } else {
                None
            },
        }),
{
    assert(s.take(i + 1).drop_last() == s.take(i));
}

/// What the chosen families offer: the graphics family can draw and the
/// present family can present, and they are the same family whenever one
/// family can do both; the compute family computes (preferring a family
/// without graphics) unless no family computes, in which case it is the
/// graphics family; the transfer family transfers (preferring one with
/// neither graphics nor compute) unless none does, in which case it is the
/// compute family. Selection fails exactly when no family can draw, or when
/// one can draw but none can present.
pub proof fn lemma_queue_families_capable(s: Seq<QueueFamilyCaps>)
    requires
        s.len() <= u32::MAX,
    ensures
        (queue_families_spec(s) == Err::<QueueFamilies, QueueFamilyError>(
            QueueFamilyError::NoGraphicsQueueFamily,
        )) <==> (forall|k: int| 0 <= k < s.len() ==> !(#[trigger] s[k]).graphics),
        (queue_families_spec(s) == Err::<QueueFamilies, QueueFamilyError>(
            QueueFamilyError::NoPresentQueueFamily,
        )) <==> ((exists|k: int| 0 <= k < s.len() && (#[trigger] s[k]).graphics) && (forall|k: int|
            0 <= k < s.len() ==> !(#[trigger] s[k]).present)),
        queue_families_spec(s) matches Ok(q) ==> {
            &&& q.graphics < s.len() && q.present < s.len()
            &&& q.compute < s.len() && q.transfer < s.len()
            &&& s[q.graphics as int].graphics
            &&& s[q.present as int].present
            &&& (exists|k: int| 0 <= k < s.len() && (#[trigger] s[k]).graphics && s[k].present)
                ==> q.graphics == q.present
            &&& s[q.compute as int].compute || (q.compute == q.graphics && forall|k: int|
                0 <= k < s.len() ==> !(#[trigger] s[k]).compute)
            &&& (exists|k: int| 0 <= k < s.len() && (#[trigger] s[k]).compute && !s[k].graphics)
                ==> s[q.compute as int].compute && !s[q.compute as int].graphics
            &&& s[q.transfer as int].transfer || (q.transfer == q.compute && forall|k: int|
                0 <= k < s.len() ==> !(#[trigger] s[k]).transfer)
            &&& (exists|k: int|
                0 <= k < s.len() && (#[trigger] s[k]).transfer && !s[k].graphics && !s[k].compute)
                ==> s[q.transfer as int].transfer && !s[q.transfer as int].graphics
                && !s[q.transfer as int].compute
        },
{
    let gp = |c| is_graphics_present(c);
    let g = |c| is_graphics(c);
    let pr = |c| is_present(c);
    let cd = |c| is_dedicated_compute(c);
    let cc = |c| is_compute(c);
    let td = |c| is_dedicated_transfer(c);
    let tt = |c| is_transfer(c);
    lemma_first_match(s, gp);
    lemma_first_match(s, g);
    lemma_first_match(s, pr);
    lemma_first_match(s, cd);
    lemma_first_match(s, cc);
    lemma_first_match(s, td);
    lemma_first_match(s, tt);
    assert(forall|k: int| 0 <= k < s.len() ==> (gp(#[trigger] s[k]) ==> g(s[k]) && pr(s[k])));
    if exists|k: int| 0 <= k < s.len() && (#[trigger] s[k]).graphics && s[k].present {
        let k = choose|k: int| 0 <= k < s.len() && (#[trigger] s[k]).graphics && s[k].present;
        assert(gp(s[k]));
    }
    if exists|k: int| 0 <= k < s.len() && (#[trigger] s[k]).graphics {
        let k = choose|k: int| 0 <= k < s.len() && (#[trigger] s[k]).graphics;
        assert(g(s[k]));
    }
    if exists|k: int| 0 <= k < s.len() && (#[trigger] s[k]).compute && !s[k].graphics {
        let k = choose|k: int| 0 <= k < s.len() && (#[trigger] s[k]).compute && !s[k].graphics;
        assert(cd(s[k]));
    }
    if exists|k: int| 0 <= k < s.len() && (#[trigger] s[k]).transfer && !s[k].graphics && !s[k].compute {
        let k = choose|k: int|
            0 <= k < s.len() && (#[trigger] s[k]).transfer && !s[k].graphics && !s[k].compute;
        assert(td(s[k]));
    }
    if first_match(s, pr) is None {
        assert(first_match(s, gp) is None) by {
            if first_match(s, gp) is Some {
                let k = first_match(s, gp)->0;
                assert(pr(s[k]));
            }
        }
    }
    if first_match(s, cc) is None {
        assert(first_match(s, cd) is None) by {
            if first_match(s, cd) is Some {
                let k = first_match(s, cd)->0;
                assert(cc(s[k]));
            }
        }
    }
    if first_match(s, tt) is None {
        assert(first_match(s, td) is None) by {
            if first_match(s, td) is Some {
                let k = first_match(s, td)->0;
                assert(tt(s[k]));
            }
        }
    }
    if first_match(s, g) is None {
        assert(first_match(s, gp) is None) by {
            if first_match(s, gp) is Some {
                let k = first_match(s, gp)->0;
                assert(g(s[k]));
            }
        }
    }
}

/// Each chosen family is the lowest-index family that fits, in order of
/// preference. Graphics: the first family that can both draw and present,
/// else the first that can draw. Present: the first that can both draw and
/// present, else the first that can present. Compute: the first family that
/// computes without drawing, else the first that computes, else the
/// graphics family. Transfer: the first family that transfers without
/// drawing or computing, else the first that transfers, else the compute
/// family.
pub proof fn lemma_queue_families_first(s: Seq<QueueFamilyCaps>)
    requires
        s.len() <= u32::MAX,
    ensures
        queue_families_spec(s) matches Ok(q) ==> {
            let (g, p, c, t) = (q.graphics as int, q.present as int, q.compute as int, q.transfer as int);
            &&& 0 <= g < s.len() && 0 <= p < s.len() && 0 <= c < s.len() && 0 <= t < s.len()
            // graphics
            &&& if exists|k: int| 0 <= k < s.len() && (#[trigger] s[k]).graphics && s[k].present {
                &&& s[g].graphics && s[g].present
                &&& forall|j: int| 0 <= j < g ==> !((#[trigger] s[j]).graphics && s[j].present)
            } else {
                &&& s[g].graphics
                &&& forall|j: int| 0 <= j < g ==> !(#[trigger] s[j]).graphics
            }
            // present
            &&& if exists|k: int| 0 <= k < s.len() && (#[trigger] s[k]).graphics && s[k].present {
                &&& s[p].graphics && s[p].present
                &&& forall|j: int| 0 <= j < p ==> !((#[trigger] s[j]).graphics && s[j].present)
            } else {
                &&& s[p].present
                &&& forall|j: int| 0 <= j < p ==> !(#[trigger] s[j]).present
            }
            // compute
            &&& if exists|k: int| 0 <= k < s.len() && (#[trigger] s[k]).compute && !s[k].graphics {
                &&& s[c].compute && !s[c].graphics
                &&& forall|j: int| 0 <= j < c ==> !((#[trigger] s[j]).compute && !s[j].graphics)
            } else if exists|k: int| 0 <= k < s.len() && (#[trigger] s[k]).compute {
                &&& s[c].compute
                &&& forall|j: int| 0 <= j < c ==> !(#[trigger] s[j]).compute
            } else {
                c == g
            }
            // transfer
            &&& if exists|k: int|
                0 <= k < s.len() && (#[trigger] s[k]).transfer && !s[k].graphics && !s[k].compute {
                &&& s[t].transfer && !s[t].graphics && !s[t].compute
                &&& forall|j: int|
                    0 <= j < t ==> !((#[trigger] s[j]).transfer && !s[j].graphics && !s[j].compute)
            } else if exists|k: int| 0 <= k < s.len() && (#[trigger] s[k]).transfer {
                &&& s[t].transfer
                &&& forall|j: int| 0 <= j < t ==> !(#[trigger] s[j]).transfer
            } else {
                t == c
            }
        },
{
    let gp = |c| is_graphics_present(c);
    let g = |c| is_graphics(c);
    let pr = |c| is_present(c);
    let cd = |c| is_dedicated_compute(c);
    let cc = |c| is_compute(c);
    let td = |c| is_dedicated_transfer(c);
    let tt = |c| is_transfer(c);
    lemma_first_match(s, gp);
    lemma_first_match(s, g);
    lemma_first_match(s, pr);
    lemma_first_match(s, cd);
    lemma_first_match(s, cc);
    lemma_first_match(s, td);
    lemma_first_match(s, tt);
    if exists|k: int| 0 <= k < s.len() && (#[trigger] s[k]).graphics && s[k].present {
        let k = choose|k: int| 0 <= k < s.len() && (#[trigger] s[k]).graphics && s[k].present;
        assert(gp(s[k]));
    }
    if exists|k: int| 0 <= k < s.len() && (#[trigger] s[k]).compute && !s[k].graphics {
        let k = choose|k: int| 0 <= k < s.len() && (#[trigger] s[k]).compute && !s[k].graphics;
        assert(cd(s[k]));
    }
    if exists|k: int| 0 <= k < s.len() && (#[trigger] s[k]).compute {
        let k = choose|k: int| 0 <= k < s.len() && (#[trigger] s[k]).compute;
        assert(cc(s[k]));
    }
    if exists|k: int| 0 <= k < s.len() && (#[trigger] s[k]).transfer && !s[k].graphics && !s[k].compute {
        let k = choose|k: int|
            0 <= k < s.len() && (#[trigger] s[k]).transfer && !s[k].graphics && !s[k].compute;
        assert(td(s[k]));
    }
    if exists|k: int| 0 <= k < s.len() && (#[trigger] s[k]).transfer {
        let k = choose|k: int| 0 <= k < s.len() && (#[trigger] s[k]).transfer;
        assert(tt(s[k]));
    }
}

/// Chooses the queue families for graphics, presentation, compute and
/// transfer work among the families of a physical device.
pub fn choose_queue_families(families: &Vec<QueueFamilyCaps>) -> (r: Result<QueueFamilies, QueueFamilyError>)
    requires
        families.len() <= u32::MAX,
    ensures
        r == queue_families_spec(families@),
{
    let ghost s = families@;
    let mut graphics: Option<u32> = None;
    let mut present: Option<u32> = None;
    let mut compute: Option<u32> = None;
    let mut transfer: Option<u32> = None;

    let mut found_dedicated_compute = false;
    let mut found_dedicated_transfer = false;
    let mut found_combined_graphics_present = false;

    let mut i: usize = 0;
    while i < families.len()
        invariant
            s == families@,
            s.len() <= u32::MAX,
            i <= s.len(),
            found_combined_graphics_present == first_match(s.take(i as int), |c| is_graphics_present(c)) is Some,
            found_dedicated_compute == first_match(s.take(i as int), |c| is_dedicated_compute(c)) is Some,
            found_dedicated_transfer == first_match(s.take(i as int), |c| is_dedicated_transfer(c)) is Some,
            graphics == as_family_index(graphics_choice(s.take(i as int))),
            present == as_family_index(present_choice(s.take(i as int))),
            compute == as_family_index(compute_choice(s.take(i as int))),
            transfer == as_family_index(transfer_choice(s.take(i as int))),
        decreases s.len() - i,
    {
        let fam = families[i];
        let index = i as u32;
        proof {
            let ii = i as int;
            lemma_first_match_step(s, |c| is_graphics_present(c), ii);
            lemma_first_match_step(s, |c| is_graphics(c), ii);
            lemma_first_match_step(s, |c| is_present(c), ii);
            lemma_first_match_step(s, |c| is_compute(c), ii);
            lemma_first_match_step(s, |c| is_dedicated_compute(c), ii);
            lemma_first_match_step(s, |c| is_transfer(c), ii);
            lemma_first_match_step(s, |c| is_dedicated_transfer(c), ii);
            lemma_first_match(s.take(ii), |c| is_graphics_present(c));
            lemma_first_match(s.take(ii), |c| is_graphics(c));
            lemma_first_match(s.take(ii), |c| is_compute(c));
            lemma_first_match(s.take(ii), |c| is_transfer(c));
            lemma_first_match(s.take(ii), |c| is_dedicated_compute(c));
            lemma_first_match(s.take(ii), |c| is_dedicated_transfer(c));
            lemma_first_match(s.take(ii), |c| is_present(c));
        }
        let can_present = fam.present;

        if fam.graphics {
            if graphics.is_none() {
                graphics = Some(index);
            }
            if can_present && !found_combined_graphics_present {
                graphics = Some(index);
                present = Some(index);
                found_combined_graphics_present = true;
            }
        }
        if can_present && present.is_none() {
            present = Some(index);
        }
        if fam.compute && (compute.is_none() || (!found_dedicated_compute && !fam.graphics)) {
            compute = Some(index);
            if !fam.graphics {
                found_dedicated_compute = true;
            }
        }
        if fam.transfer && (transfer.is_none() || (!found_dedicated_transfer && !fam.graphics
            && !fam.compute)) {
            transfer = Some(index);
            if !fam.graphics && !fam.compute {
                found_dedicated_transfer = true;
            }
        }
        i = i + 1;
    }
    proof {
        assert(s.take(s.len() as int) == s);
    }

    if graphics.is_none() {
        return Err(QueueFamilyError::NoGraphicsQueueFamily);
    }
    if present.is_none() {
        return Err(QueueFamilyError::NoPresentQueueFamily);
    }
    if compute.is_none() {
        compute = graphics;
    }
    if transfer.is_none() {
        transfer = compute;
    }
    Ok(
        QueueFamilies {
            graphics: graphics.unwrap(),
            present: present.unwrap(),
            compute: compute.unwrap(),
            transfer: transfer.unwrap(),
        },
    )
}

/// A queue retrieved from the logical device, with the family it belongs to.
#[derive(Debug, Clone, Copy)]
pub struct Queue<H> {
    pub family: u32,
    pub queue: H,
}

impl<H> core::ops::Deref for Queue<H> {
    type Target = H;

    fn deref(&self) -> (r: &H)
        ensures
            *r == self.queue,
    {
        &self.queue
    }
}

impl<H> AsRef<H> for Queue<H> {
    fn as_ref(&self) -> (r: &H)
        ensures
            *r == self.queue,
    {
        &self.queue
    }
}

/// The queue used for each kind of work.
#[derive(Debug, Clone, Copy)]
pub struct Queues<H> {
    pub graphics: Queue<H>,
    pub present: Queue<H>,
    pub compute: Queue<H>,
    pub transfer: Queue<H>,
}

/// The distinct family indices among the chosen ones.
pub open spec fn family_set(f: QueueFamilies) -> Set<u32> {
    set![f.graphics, f.present, f.compute, f.transfer]
}

/// The chosen families, each listed once: one queue is created (and later
/// retrieved) per distinct family. The order is that in which a `HashSet`
/// hands its items out, which is left open.
pub fn unique_queue_families(fams: &QueueFamilies) -> (r: Vec<u32>)
    ensures
        r@.no_duplicates(),
        forall|x: u32| r@.contains(x) <==> family_set(*fams).contains(x),
        forall|x: u32|
            r@.contains(x) <==> (x == fams.graphics || x == fams.present || x == fams.compute || x
                == fams.transfer),
{
    broadcast use vstd::std_specs::hash::group_hash_axioms;

    let mut set: HashSet<u32> = HashSet::new();
    set.insert(fams.graphics);
    set.insert(fams.present);
    set.insert(fams.compute);
    set.insert(fams.transfer);
    assert(set@ == family_set(*fams));
    let ghost keys: Seq<u32> = set.iter().remaining().unref();
    let mut out: Vec<u32> = Vec::new();
    for x in it: set.iter()
        invariant
            it.seq().unref() == keys,
            out@ == keys.take(it.index()),
    {
        out.push(*x);
    }
    assert(out@ == keys);
    assert forall|x: u32| out@.contains(x) <==> (x == fams.graphics || x == fams.present || x
        == fams.compute || x == fams.transfer) by {
        assert(family_set(*fams).contains(x) <==> (x == fams.graphics || x == fams.present || x
            == fams.compute || x == fams.transfer));
    }
    out
}

/// `i` is the first position of `queues` whose family is `family`.
pub open spec fn is_first_queue_of<H>(queues: Seq<Queue<H>>, family: u32, i: int) -> bool {
    &&& 0 <= i < queues.len()
    &&& queues[i].family == family
    &&& forall|j: int| 0 <= j < i ==> (#[trigger] queues[j]).family != family
}

/// `queues` holds a queue of `family`.
pub open spec fn has_queue_of<H>(queues: Seq<Queue<H>>, family: u32) -> bool {
    exists|i: int| 0 <= i < queues.len() && (#[trigger] queues[i]).family == family
}

/// The first queue of `family` in `queues`.
pub fn find_queue<H: Copy>(queues: &Vec<Queue<H>>, family: u32) -> (r: Queue<H>)
    requires
        has_queue_of(queues@, family),
    ensures
        exists|i: int| is_first_queue_of(queues@, family, i) && queues@[i] == r,
{
    let mut i: usize = 0;
    while i < queues.len()
        invariant
            i <= queues.len(),
            has_queue_of(queues@, family),
            forall|j: int| 0 <= j < i ==> (#[trigger] queues@[j]).family != family,
        decreases queues.len() - i,
    {
        if queues[i].family == family {
            let q = queues[i];
            assert(is_first_queue_of(queues@, family, i as int));
            return q;
        }
        i = i + 1;
    }
    proof {
        let k = choose|k: int| 0 <= k < queues@.len() && (#[trigger] queues@[k]).family == family;
        assert(queues@[k].family != family);
    }
    queues[0]
}

/// Assigns to each kind of work the queue retrieved for its family.
pub fn assign_queues<H: Copy>(fams: &QueueFamilies, queues: &Vec<Queue<H>>) -> (r: Queues<H>)
    requires
        has_queue_of(queues@, fams.graphics),
        has_queue_of(queues@, fams.present),
        has_queue_of(queues@, fams.compute),
        has_queue_of(queues@, fams.transfer),
    ensures
        exists|i: int| is_first_queue_of(queues@, fams.graphics, i) && queues@[i] == r.graphics,
        exists|i: int| is_first_queue_of(queues@, fams.present, i) && queues@[i] == r.present,
        exists|i: int| is_first_queue_of(queues@, fams.compute, i) && queues@[i] == r.compute,
        exists|i: int| is_first_queue_of(queues@, fams.transfer, i) && queues@[i] == r.transfer,
{
    Queues {
        graphics: find_queue(queues, fams.graphics),
        present: find_queue(queues, fams.present),
        compute: find_queue(queues, fams.compute),
        transfer: find_queue(queues, fams.transfer),
    }
}

} // verus!
