//! Choosing the physical devices that can run the renderer.

use vstd::prelude::*;

verus! {

broadcast use {vstd::seq_lib::group_seq_properties, vstd::seq_lib::group_to_multiset_ensures};

/// What the selection knows of one physical device: its name, the device
/// extensions it supports, and whatever else the caller keeps with it
/// (the driver's handle, features and properties).
pub struct DeviceInfo<H> {
    pub name: String,
    pub exts: Vec<String>,
    pub device: H,
}

/// The requirements a physical device must meet.
pub struct DeviceSelectInfo<'a, F> {
    /// Extensions that must be supported by the device. Devices missing any of these will be
    /// excluded before the score function is run.
    pub required_extensions: &'a [String],
    /// Score function. Return 0 to exclude device, otherwise return score is used for sorting (higher
    /// is better).
    pub score_fn: F,
}

/// Why no physical device could be selected.
#[derive(Debug, Clone, Copy, PartialEq, Eq)]
pub enum DeviceSelectError {
    /// The driver failed to list the physical devices (the Vulkan result code).
    FailedToEnumerateDevices(i32),
    /// No physical device has the required extensions and a positive score.
    NoSuitableDevices,
}

/// Why the logical device could not be created.
#[derive(Debug, Clone, Copy, PartialEq, Eq)]
pub enum DeviceCreationError {
    /// The driver refused to create the logical device (the Vulkan result code).
    FailedToCreateLogicalDevice(i32),
}

/// `exts` holds an extension named `name`.
pub open spec fn has_extension_spec(exts: Seq<String>, name: Seq<char>) -> bool {
    exists|i: int| 0 <= i < exts.len() && (#[trigger] exts[i])@ == name
}

/// `exts` holds every extension of `required`.
pub open spec fn has_all_extensions_spec(exts: Seq<String>, required: Seq<String>) -> bool {
    forall|j: int| 0 <= j < required.len() ==> has_extension_spec(exts, (#[trigger] required[j])@)
}

/// Whether `exts` holds an extension named `name`.
pub fn has_extension(exts: &Vec<String>, name: &String) -> (r: bool)
    ensures
        r == has_extension_spec(exts@, name@),
{
    let mut i: usize = 0;
    while i < exts.len()
        invariant
            i <= exts.len(),
            forall|k: int| 0 <= k < i ==> (#[trigger] exts@[k])@ != name@,
        decreases exts.len() - i,
    {
        if exts[i] == *name {
            return true;
        }
        i = i + 1;
    }
    false
}

/// Whether `exts` holds every extension of `required`.
pub fn has_all_extensions(exts: &Vec<String>, required: &[String]) -> (r: bool)
    ensures
        r == has_all_extensions_spec(exts@, required@),
{
    let mut j: usize = 0;
    while j < required.len()
        invariant
            j <= required.len(),
            forall|k: int| 0 <= k < j ==> has_extension_spec(exts@, (#[trigger] required@[k])@),
        decreases required.len() - j,
    {
        if !has_extension(exts, &required[j]) {
            return false;
        }
        j = j + 1;
    }
    true
}

/// No extension is found in an empty list; a list with one more extension
/// holds a name exactly when the shorter list does or the added extension
/// has that name. Likewise every requirement is met when nothing is
/// required, and one more requirement is met exactly when the earlier ones
/// are and the list holds the added one.
pub proof fn lemma_extension_lookup_by_push(exts: Seq<String>, e: String, name: Seq<char>, required: Seq<String>, r: String)
    ensures
        !has_extension_spec(Seq::<String>::empty(), name),
        has_extension_spec(exts.push(e), name) == (has_extension_spec(exts, name) || e@ == name),
        has_all_extensions_spec(exts, Seq::<String>::empty()),
        has_all_extensions_spec(exts, required.push(r)) == (has_all_extensions_spec(exts, required)
            && has_extension_spec(exts, r@)),
{
    let s = exts.push(e);
    if has_extension_spec(exts, name) {
        let i = choose|i: int| 0 <= i < exts.len() && (#[trigger] exts[i])@ == name;
        assert(s[i] == exts[i]);
    }
    if e@ == name {
        assert(s[exts.len() as int] == e);
    }
    if has_extension_spec(s, name) && e@ != name {
        let i = choose|i: int| 0 <= i < s.len() && (#[trigger] s[i])@ == name;
        assert(i < exts.len());
        assert(exts[i] == s[i]);
    }
    let q = required.push(r);
    if has_all_extensions_spec(exts, q) {
        assert forall|j: int| 0 <= j < required.len() implies has_extension_spec(exts, (#[trigger] required[j])@) by {
            assert(q[j] == required[j]);
        }
        assert(q[required.len() as int] == r);
    }
    if has_all_extensions_spec(exts, required) && has_extension_spec(exts, r@) {
        assert forall|j: int| 0 <= j < q.len() implies has_extension_spec(exts, (#[trigger] q[j])@) by {
            if j < required.len() {
                assert(q[j] == required[j]);
            }
        }
    }
}

/// The name of the swapchain device extension, as ash defines it
/// (`ash::khr::swapchain::NAME`, the C string "VK_KHR_swapchain"), converted
/// to a `String`.
#[verifier::external_body]
fn swapchain_extension_name() -> (r: String)
    ensures
        r@ == "VK_KHR_swapchain"@,
{
    ash::khr::swapchain::NAME.to_string_lossy().into_owned()
}

/// The device extensions the renderer requires: the swapchain extension.
pub fn required_device_extensions() -> (r: Vec<String>)
    ensures
        r@.len() == 1,
        r@[0]@ == "VK_KHR_swapchain"@,
{
    let mut exts: Vec<String> = Vec::new();
    exts.push(swapchain_extension_name());
    exts
}

/// The Vulkan `VkPhysicalDeviceType` value of a discrete GPU.
pub const PHYSICAL_DEVICE_TYPE_DISCRETE_GPU: i32 = 2;

/// Compares `ash::vk::PhysicalDeviceType::from_raw(device_type)` with
/// `ash::vk::PhysicalDeviceType::DISCRETE_GPU`, which ash defines with the
/// raw value 2 and compares by raw value.
#[verifier::external_body]
fn is_discrete_gpu(device_type: i32) -> (r: bool)
    ensures
        r == (device_type == PHYSICAL_DEVICE_TYPE_DISCRETE_GPU),
{
    ash::vk::PhysicalDeviceType::from_raw(device_type) == ash::vk::PhysicalDeviceType::DISCRETE_GPU
}

/// The score the renderer gives a physical device by its Vulkan device type:
/// 1000 for a discrete GPU and 0 (excluded) for every other kind.
pub fn device_type_score(device_type: i32) -> (r: usize)
    ensures
        r == (if device_type == PHYSICAL_DEVICE_TYPE_DISCRETE_GPU { 1000usize } else { 0usize }),
        r == (if device_type == 2 { 1000usize } else { 0usize }),
{
    let mut score: usize = 0;
    if is_discrete_gpu(device_type) {
        score += 1000;
    }
    score
}

/// The scored devices whose score is positive, in the order they were given.
pub open spec fn positive_scores<H>(s: Seq<(DeviceInfo<H>, usize)>) -> Seq<(DeviceInfo<H>, usize)> {
    s.filter(has_positive_score())
}

/// The entry's score is positive.
pub open spec fn has_positive_score<H>() -> spec_fn((DeviceInfo<H>, usize)) -> bool {
    |p: (DeviceInfo<H>, usize)| p.1 > 0
}

/// The scores never increase along `s`.
pub open spec fn sorted_by_score_desc<H>(s: Seq<(DeviceInfo<H>, usize)>) -> bool {
    forall|i: int, j: int| 0 <= i < j < s.len() ==> (#[trigger] s[i]).1 >= (#[trigger] s[j]).1
}

/// `devices` is `scored`'s positive-score devices, best score first: it is
/// the device part of an arrangement of exactly those entries whose scores
/// never increase.
pub open spec fn ranked_spec<H>(scored: Seq<(DeviceInfo<H>, usize)>, devices: Seq<DeviceInfo<H>>) -> bool {
    exists|ranked: Seq<(DeviceInfo<H>, usize)>|
        {
            &&& #[trigger] ranked.to_multiset() == positive_scores(scored).to_multiset()
            &&& sorted_by_score_desc(ranked)
            &&& devices == ranked.map_values(|p: (DeviceInfo<H>, usize)| p.0)
        }
}

/// The devices kept for ranking are those scored above 0, in the order
/// given: none of an empty list, and of a list with one more entry, those of
/// the shorter list followed by the new entry exactly when its score is
/// positive.
pub proof fn lemma_positive_scores_by_push<H>(s: Seq<(DeviceInfo<H>, usize)>, e: (DeviceInfo<H>, usize))
    ensures
        positive_scores(Seq::<(DeviceInfo<H>, usize)>::empty()) == Seq::<(DeviceInfo<H>, usize)>::empty(),
        positive_scores(s.push(e)) == (if e.1 > 0 {
            positive_scores(s).push(e)
        } else {
            positive_scores(s)
        }),
{
    s.lemma_filter_push(e, has_positive_score());
    assert(Seq::<(DeviceInfo<H>, usize)>::empty().filter(has_positive_score()) =~= Seq::<(DeviceInfo<H>, usize)>::empty());
}

/// A ranking whose scores never increase from one entry to the next never
/// increases anywhere along it, and conversely.
pub proof fn lemma_sorted_by_adjacent<H>(s: Seq<(DeviceInfo<H>, usize)>)
    ensures
        sorted_by_score_desc(s) <==> forall|i: int| 0 <= i < s.len() - 1 ==> #[trigger] s[i].1 >= s[i + 1].1,
{
    if forall|i: int| 0 <= i < s.len() - 1 ==> #[trigger] s[i].1 >= s[i + 1].1 {
        assert forall|i: int, j: int| 0 <= i < j < s.len() implies (#[trigger] s[i]).1 >= (#[trigger] s[j]).1 by {
            lemma_adjacent_chain(s, i, j);
        }
    }
    if sorted_by_score_desc(s) {
        assert forall|i: int| 0 <= i < s.len() - 1 implies #[trigger] s[i].1 >= s[i + 1].1 by {
            assert(s[i].1 >= s[i + 1].1);
        }
    }
}

proof fn lemma_adjacent_chain<H>(s: Seq<(DeviceInfo<H>, usize)>, i: int, j: int)
    requires
        0 <= i < j < s.len(),
        forall|k: int| 0 <= k < s.len() - 1 ==> #[trigger] s[k].1 >= s[k + 1].1,
    ensures
        s[i].1 >= s[j].1,
    decreases j - i,
{
    assert(s[j - 1].1 >= s[j].1);
    if i < j - 1 {
        lemma_adjacent_chain(s, i, j - 1);
    }
}

/// Orders the scored devices from the highest score down, dropping those
/// scored 0; fails when none is left.
pub fn rank_devices<H>(scored: Vec<(DeviceInfo<H>, usize)>) -> (r: Result<Vec<DeviceInfo<H>>, DeviceSelectError>)
    ensures
        r is Err <==> positive_scores(scored@).len() == 0,
        r is Err ==> r == Err::<Vec<DeviceInfo<H>>, DeviceSelectError>(DeviceSelectError::NoSuitableDevices),
        r matches Ok(v) ==> ranked_spec(scored@, v@),
{
    let ghost s0 = scored@;
    let ghost keep = has_positive_score::<H>();
    let mut rest = scored;
    let mut ranked: Vec<(DeviceInfo<H>, usize)> = Vec::new();
    let mut i: usize = 0;
    let n = rest.len();
    while rest.len() > 0
        invariant
            n == s0.len(),
            keep == has_positive_score::<H>(),
            i + rest.len() == n,
            rest@ == s0.skip(i as int),
            ranked@.to_multiset() == s0.take(i as int).filter(keep).to_multiset(),
            sorted_by_score_desc(ranked@),
        decreases rest.len(),
    {
        let entry = rest.remove(0);
        proof {
            assert(entry == s0[i as int]);
            assert(s0.take(i + 1) == s0.take(i as int).push(s0[i as int]));
            s0.take(i as int).lemma_filter_push(s0[i as int], keep);
            vstd::seq_lib::to_multiset_build(s0.take(i as int).filter(keep), entry);
            assert(s0.skip(i + 1) == s0.skip(i as int).remove(0));
        }
        if entry.1 > 0 {
            let mut pos: usize = 0;
            while pos < ranked.len() && ranked[pos].1 >= entry.1
                invariant
                    pos <= ranked.len(),
                    forall|k: int| 0 <= k < pos ==> (#[trigger] ranked@[k]).1 >= entry.1,
                decreases ranked.len() - pos,
            {
                pos = pos + 1;
            }
            let ghost before = ranked@;
            ranked.insert(pos, entry);
            proof {
                vstd::seq_lib::to_multiset_insert(before, pos as int, entry);
                assert forall|a: int, b: int| 0 <= a < b < ranked@.len() implies (#[trigger] ranked@[a]).1
                    >= (#[trigger] ranked@[b]).1 by {
                    if pos < before.len() {
                        assert(before[pos as int].1 < entry.1);
                    }
                    if a < pos && b == pos {
                        assert(before[a].1 >= entry.1);
                    } else if a == pos && b > pos {
                        assert(before[pos as int].1 >= before[b - 1].1);
                    } else if a < pos && b > pos {
                        assert(before[a].1 >= before[b - 1].1);
                    } else if a > pos {
                        assert(before[a - 1].1 >= before[b - 1].1);
                    } else {
                        assert(before[a].1 >= before[b].1);
                    }
                }
            }
        }
        i = i + 1;
    }
    proof {
        assert(s0.take(n as int) == s0);
    }
    if ranked.len() == 0 {
        proof {
            assert(positive_scores(s0).to_multiset().len() == 0);
        }
        return Err(DeviceSelectError::NoSuitableDevices);
    }
    let ghost ranked0 = ranked@;
    let mut devices: Vec<DeviceInfo<H>> = Vec::new();
    let mut k: usize = 0;
    let m = ranked.len();
    while ranked.len() > 0
        invariant
            m == ranked0.len(),
            k + ranked.len() == m,
            ranked@ == ranked0.skip(k as int),
            devices@ == ranked0.take(k as int).map_values(|p: (DeviceInfo<H>, usize)| p.0),
        decreases ranked.len(),
    {
        let entry = ranked.remove(0);
        proof {
            assert(entry == ranked0[k as int]);
            assert(ranked0.take(k + 1) == ranked0.take(k as int).push(ranked0[k as int]));
            assert(ranked0.skip(k + 1) == ranked0.skip(k as int).remove(0));
        }
        devices.push(entry.0);
        k = k + 1;
    }
    proof {
        assert(ranked0.take(m as int) == ranked0);
        assert(ranked0.to_multiset() == positive_scores(s0).to_multiset());
        assert(positive_scores(s0).to_multiset().len() == positive_scores(s0).len());
    }
    Ok(devices)
}

/// The devices of `devices` that have every required extension, each paired
/// with a score that `score_fn` can return for it, in the order they were given.
pub open spec fn scored_by<H, F: Fn(&DeviceInfo<H>) -> usize>(
    score_fn: F,
    devices: Seq<DeviceInfo<H>>,
    required: Seq<String>,
    scored: Seq<(DeviceInfo<H>, usize)>,
) -> bool {
    &&& scored.map_values(|p: (DeviceInfo<H>, usize)| p.0) == devices.filter(
        |d: DeviceInfo<H>| has_all_extensions_spec(d.exts@, required),
    )
    &&& forall|k: int| 0 <= k < scored.len() ==> call_ensures(score_fn, (&(#[trigger] scored[k]).0,), scored[k].1)
}

/// Every device that the selection returns is one of the candidates, has
/// every required extension and got a positive score, and there are as many
/// of them as candidates that qualified.
pub proof fn lemma_selected_devices_qualify<H, F: Fn(&DeviceInfo<H>) -> usize>(
    score_fn: F,
    devices: Seq<DeviceInfo<H>>,
    required: Seq<String>,
    scored: Seq<(DeviceInfo<H>, usize)>,
    selected: Seq<DeviceInfo<H>>,
)
    requires
        scored_by(score_fn, devices, required, scored),
        ranked_spec(scored, selected),
    ensures
        selected.len() == positive_scores(scored).len(),
        forall|i: int| 0 <= i < selected.len() ==> {
            &&& devices.contains(#[trigger] selected[i])
            &&& has_all_extensions_spec(selected[i].exts@, required)
            &&& exists|s: usize| s > 0 && call_ensures(score_fn, (&selected[i],), s)
        },
{
    broadcast use vstd::seq_lib::group_filter_ensures;

    let ranked = choose|ranked: Seq<(DeviceInfo<H>, usize)>|
        {
            &&& #[trigger] ranked.to_multiset() == positive_scores(scored).to_multiset()
            &&& sorted_by_score_desc(ranked)
            &&& selected == ranked.map_values(|p: (DeviceInfo<H>, usize)| p.0)
        };
    let pos = positive_scores(scored);
    let has_exts = |d: DeviceInfo<H>| has_all_extensions_spec(d.exts@, required);
    assert(ranked.len() == pos.len()) by {
        assert(ranked.to_multiset().len() == pos.to_multiset().len());
    }
    assert forall|i: int| 0 <= i < selected.len() implies {
        &&& devices.contains(#[trigger] selected[i])
        &&& has_all_extensions_spec(selected[i].exts@, required)
        &&& exists|s: usize| s > 0 && call_ensures(score_fn, (&selected[i],), s)
    } by {
        let e = ranked[i];
        assert(selected[i] == e.0);
        assert(ranked.contains(e));
        vstd::seq_lib::to_multiset_contains(ranked, e);
        vstd::seq_lib::to_multiset_contains(pos, e);
        assert(pos.contains(e));
        let j = choose|j: int| 0 <= j < pos.len() && pos[j] == e;
        scored.lemma_filter_pred(has_positive_score(), j);
        scored.lemma_filter_contains_rev(has_positive_score(), e);
        let k = choose|k: int| 0 <= k < scored.len() && scored[k] == e;
        assert(call_ensures(score_fn, (&scored[k].0,), scored[k].1));
        let filtered = devices.filter(has_exts);
        assert(scored.map_values(|p: (DeviceInfo<H>, usize)| p.0)[k] == e.0);
        assert(filtered[k] == e.0);
        devices.lemma_filter_pred(has_exts, k);
        devices.lemma_filter_contains_rev(has_exts, e.0);
    }
}

/// Selects the physical devices that have every required extension and a
/// positive score, best score first; fails when there is none.
pub fn select_devices<H, F: Fn(&DeviceInfo<H>) -> usize>(
    devices: Vec<DeviceInfo<H>>,
    dev_info: DeviceSelectInfo<F>,
) -> (r: Result<Vec<DeviceInfo<H>>, DeviceSelectError>)
    requires
        forall|d: &DeviceInfo<H>| call_requires(dev_info.score_fn, (d,)),
    ensures
        exists|scored: Seq<(DeviceInfo<H>, usize)>|
            {
                &&& #[trigger] scored_by(dev_info.score_fn, devices@, dev_info.required_extensions@, scored)
                &&& r is Err <==> positive_scores(scored).len() == 0
                &&& r is Err ==> r == Err::<Vec<DeviceInfo<H>>, DeviceSelectError>(DeviceSelectError::NoSuitableDevices)
                &&& r matches Ok(v) ==> ranked_spec(scored, v@)
            },
{
    let ghost d0 = devices@;
    let ghost required = dev_info.required_extensions@;
    let ghost has_exts = |d: DeviceInfo<H>| has_all_extensions_spec(d.exts@, required);
    let mut rest = devices;
    let mut scored: Vec<(DeviceInfo<H>, usize)> = Vec::new();
    let mut i: usize = 0;
    let n = rest.len();
    while rest.len() > 0
        invariant
            n == d0.len(),
            i + rest.len() == n,
            rest@ == d0.skip(i as int),
            required == dev_info.required_extensions@,
            has_exts == (|d: DeviceInfo<H>| has_all_extensions_spec(d.exts@, required)),
            forall|d: &DeviceInfo<H>| call_requires(dev_info.score_fn, (d,)),
            scored@.map_values(|p: (DeviceInfo<H>, usize)| p.0) == d0.take(i as int).filter(has_exts),
            forall|k: int| 0 <= k < scored@.len() ==> call_ensures(dev_info.score_fn, (&(#[trigger] scored@[k]).0,), scored@[k].1),
        decreases rest.len(),
    {
        let d = rest.remove(0);
        proof {
            assert(d == d0[i as int]);
            assert(d0.take(i + 1) == d0.take(i as int).push(d0[i as int]));
            d0.take(i as int).lemma_filter_push(d0[i as int], has_exts);
            assert(d0.skip(i + 1) == d0.skip(i as int).remove(0));
        }
        if has_all_extensions(&d.exts, dev_info.required_extensions) {
            let score = (dev_info.score_fn)(&d);
            let ghost before = scored@;
            scored.push((d, score));
            proof {
                assert(scored@.map_values(|p: (DeviceInfo<H>, usize)| p.0) == before.map_values(
                    |p: (DeviceInfo<H>, usize)| p.0,
                ).push(d));
            }
        }
        i = i + 1;
    }
    proof {
        assert(d0.take(n as int) == d0);
    }
    let ghost final_scored = scored@;
    let r = rank_devices(scored);
    assert(scored_by(dev_info.score_fn, d0, required, final_scored));
    r
}

} // verus!
