use vstd::prelude::*;

use crate::queue_family_request::{QueueFamilyProperties, QueueFamilyRequest};

verus! {

/// Kind of a physical device.
#[derive(Clone, Copy, Debug, PartialEq, Eq, Structural)]
pub enum PhysicalDeviceType {
    Other,
    IntegratedGpu,
    DiscreteGpu,
    VirtualGpu,
    Cpu,
}

/// What the driver reports of one physical device, as far as selection reads it.
#[derive(Clone, Debug)]
pub struct PhysicalDeviceMetadata {
    /// Raw handle of the device, carried through untouched.
    pub handle: u64,
    pub device_type: PhysicalDeviceType,
    pub api_version: u32,
    /// Name of the device, as bytes without a terminator.
    pub device_name: Vec<u8>,
    /// Names of the supported extensions, as bytes without a terminator.
    pub extensions: Vec<Vec<u8>>,
    pub queue_families: Vec<QueueFamilyProperties>,
}

/// A description of a wanted physical device.
#[derive(Clone, Debug)]
pub struct PhysicalDeviceCriteria {
    /// Device types, most preferred first.
    pub device_type_preference: Vec<PhysicalDeviceType>,
    /// Requests that the device must each be able to meet.
    pub queue_families: Vec<QueueFamilyRequest>,
    pub minimum_api_version: u32,
    /// Names of the extensions that the device must support.
    pub required_extensions: Vec<Vec<u8>>,
}

/// Position of the first occurrence of `t` in `prefs`, or the length of
/// `prefs` when `t` is absent: lower is better.
pub open spec fn preference_rank(prefs: Seq<PhysicalDeviceType>, t: PhysicalDeviceType) -> nat
    decreases prefs.len(),
{
    if prefs.len() == 0 {
        0
    } else if prefs[0] == t {
        0
    } else {
        1 + preference_rank(prefs.drop_first(), t)
    }
}

/// Some name of `exts` is `name`.
pub open spec fn has_extension(exts: Seq<Vec<u8>>, name: Seq<u8>) -> bool {
    exists|k: int| 0 <= k < exts.len() && (#[trigger] exts[k])@ == name
}

proof fn lemma_rank_is_first_match(prefs: Seq<PhysicalDeviceType>, t: PhysicalDeviceType, i: int)
    requires
        0 <= i <= prefs.len(),
        forall|k: int| 0 <= k < i ==> prefs[k] != t,
        i == prefs.len() || prefs[i] == t,
    ensures
        preference_rank(prefs, t) == i,
    decreases prefs.len(),
{
    if prefs.len() > 0 && i > 0 {
        let rest = prefs.drop_first();
        assert forall|k: int| 0 <= k < i - 1 implies rest[k] != t by {
            assert(rest[k] == prefs[k + 1]);
        }
        lemma_rank_is_first_match(rest, t, i - 1);
    }
}

/// Rank of `t` in `prefs`.
pub fn device_type_rank(prefs: &Vec<PhysicalDeviceType>, t: PhysicalDeviceType) -> (r: usize)
    ensures
        r == preference_rank(prefs@, t),
{
    let mut i: usize = 0;
    while i < prefs.len() && prefs[i] != t
        invariant
            i <= prefs@.len(),
            forall|k: int| 0 <= k < i ==> prefs@[k] != t,
        decreases prefs@.len() - i,
    {
        i = i + 1;
    }
    proof {
        lemma_rank_is_first_match(prefs@, t, i as int);
    }
    i
}

/// Whether `a` and `b` hold the same bytes.
pub fn bytes_equal(a: &Vec<u8>, b: &Vec<u8>) -> (r: bool)
    ensures
        r == (a@ == b@),
{
    if a.len() != b.len() {
        return false;
    }
    let mut i: usize = 0;
    while i < a.len()
        invariant
            i <= a@.len(),
            a@.len() == b@.len(),
            forall|k: int| 0 <= k < i ==> a@[k] == b@[k],
        decreases a@.len() - i,
    {
        if a[i] != b[i] {
            return false;
        }
        i = i + 1;
    }
    assert(a@ =~= b@);
    true
}

/// Whether some name of `exts` is `name`.
pub fn find_extension(exts: &Vec<Vec<u8>>, name: &Vec<u8>) -> (r: bool)
    ensures
        r == has_extension(exts@, name@),
{
    let mut i: usize = 0;
    while i < exts.len()
        invariant
            i <= exts@.len(),
            forall|k: int| 0 <= k < i ==> (#[trigger] exts@[k])@ != name@,
        decreases exts@.len() - i,
    {
        if bytes_equal(&exts[i], name) {
            return true;
        }
        i = i + 1;
    }
    false
}

impl PhysicalDeviceCriteria {
    /// The device supports every required extension.
    pub open spec fn has_required_extensions(self, d: PhysicalDeviceMetadata) -> bool {
        forall|k: int|
            0 <= k < self.required_extensions@.len() ==> has_extension(
                d.extensions@,
                (#[trigger] self.required_extensions@[k])@,
            )
    }

    /// Every queue family request admits some family of the device.
    pub open spec fn meets_queue_requests(self, d: PhysicalDeviceMetadata) -> bool {
        forall|k: int|
            0 <= k < self.queue_families@.len() ==> (#[trigger] self.queue_families@[k]).admits_any(
                d.queue_families@,
            )
    }

    /// The device passes every filter.
    pub open spec fn accepts(self, d: PhysicalDeviceMetadata) -> bool {
        &&& d.api_version >= self.minimum_api_version
        &&& self.has_required_extensions(d)
        &&& self.meets_queue_requests(d)
    }

    /// Rank of the device's type.
    pub open spec fn rank(self, d: PhysicalDeviceMetadata) -> nat {
        preference_rank(self.device_type_preference@, d.device_type)
    }

    /// Position `i` holds the device picked: it is accepted, no accepted
    /// device has a better rank, and every accepted device before it has a
    /// worse rank.
    pub open spec fn best_at(self, devices: Seq<PhysicalDeviceMetadata>, i: int) -> bool {
        &&& 0 <= i < devices.len()
        &&& self.accepts(devices[i])
        &&& forall|j: int|
            0 <= j < devices.len() && self.accepts(devices[j]) ==> self.rank(devices[i])
                <= self.rank(#[trigger] devices[j])
        &&& forall|j: int|
            0 <= j < i && self.accepts(devices[j]) ==> self.rank(devices[i]) < self.rank(
                #[trigger] devices[j],
            )
    }

    /// Some device of `devices` is accepted.
    pub open spec fn accepts_any(self, devices: Seq<PhysicalDeviceMetadata>) -> bool {
        exists|j: int| 0 <= j < devices.len() && self.accepts(#[trigger] devices[j])
    }

    /// `r` is what the selection gives on `devices`.
    pub open spec fn is_pick(
        self,
        devices: Seq<PhysicalDeviceMetadata>,
        r: Option<PhysicalDeviceMetadata>,
    ) -> bool {
        match r {
            None => !self.accepts_any(devices),
            Some(d) => exists|i: int| self.best_at(devices, i) && devices[i] == d,
        }
    }

    /// Criteria that accept any device.
    pub fn empty() -> (r: Self)
        ensures
            r.device_type_preference@.len() == 0,
            r.queue_families@.len() == 0,
            r.minimum_api_version == 0,
            r.required_extensions@.len() == 0,
    {
        PhysicalDeviceCriteria {
            device_type_preference: Vec::new(),
            queue_families: Vec::new(),
            minimum_api_version: 0,
            required_extensions: Vec::new(),
        }
    }

    /// Appends `ty` to the preferred types: earlier calls take precedence.
    pub fn prefer_device_type(self, ty: PhysicalDeviceType) -> (r: Self)
        ensures
            r.device_type_preference@ == self.device_type_preference@.push(ty),
            r.queue_families@ == self.queue_families@,
            r.minimum_api_version == self.minimum_api_version,
            r.required_extensions@ == self.required_extensions@,
    {
        let mut c = self;
        c.device_type_preference.push(ty);
        c
    }

    /// Adds a queue family request that the device must meet.
    pub fn request_queue_family(self, queue: QueueFamilyRequest) -> (r: Self)
        ensures
            r.device_type_preference@ == self.device_type_preference@,
            r.queue_families@ == self.queue_families@.push(queue),
            r.minimum_api_version == self.minimum_api_version,
            r.required_extensions@ == self.required_extensions@,
    {
        let mut c = self;
        c.queue_families.push(queue);
        c
    }

    /// Adds an extension that the device must support.
    pub fn require_extension(self, name: Vec<u8>) -> (r: Self)
        ensures
            r.device_type_preference@ == self.device_type_preference@,
            r.queue_families@ == self.queue_families@,
            r.minimum_api_version == self.minimum_api_version,
            r.required_extensions@ == self.required_extensions@.push(name),
    {
        let mut c = self;
        c.required_extensions.push(name);
        c
    }

    /// Sets the lowest API version that the device may report.
    pub fn minimum_api_version(self, version: u32) -> (r: Self)
        ensures
            r.device_type_preference@ == self.device_type_preference@,
            r.queue_families@ == self.queue_families@,
            r.minimum_api_version == version,
            r.required_extensions@ == self.required_extensions@,
    {
        PhysicalDeviceCriteria { minimum_api_version: version, ..self }
    }

    /// Whether the device passes every filter: API version, extensions and
    /// queue family requests.
    pub fn is_suitable(&self, device: &PhysicalDeviceMetadata) -> (r: bool)
        ensures
            r == self.accepts(*device),
    {
        if device.api_version < self.minimum_api_version {
            return false;
        }
        let mut k: usize = 0;
        while k < self.required_extensions.len()
            invariant
                k <= self.required_extensions@.len(),
                forall|j: int|
                    0 <= j < k ==> has_extension(
                        device.extensions@,
                        (#[trigger] self.required_extensions@[j])@,
                    ),
            decreases self.required_extensions@.len() - k,
        {
            if !find_extension(&device.extensions, &self.required_extensions[k]) {
                return false;
            }
            k = k + 1;
        }
        let mut q: usize = 0;
        while q < self.queue_families.len()
            invariant
                self.has_required_extensions(*device),
                q <= self.queue_families@.len(),
                forall|j: int|
                    0 <= j < q ==> (#[trigger] self.queue_families@[j]).admits_any(
                        device.queue_families@,
                    ),
            decreases self.queue_families@.len() - q,
        {
            let found = self.queue_families[q].choose_queue_family_position(
                device.queue_families.as_slice(),
            );
            if found.is_none() {
                return false;
            }
            q = q + 1;
        }
        true
    }

    /// Position and rank of the device to use among `devices`: of the
    /// accepted devices, the first whose type ranks best. `None` when no
    /// device is accepted.
    pub fn best_device_position(&self, devices: &Vec<PhysicalDeviceMetadata>) -> (r: Option<
        (usize, usize),
    >)
        ensures
            match r {
                None => !self.accepts_any(devices@),
                Some((b, rb)) => self.best_at(devices@, b as int) && rb == self.rank(
                    devices@[b as int],
                ),
            },
    {
        let mut best: Option<(usize, usize)> = None;
        let mut i: usize = 0;
        while i < devices.len()
            invariant
                i <= devices@.len(),
                match best {
                    None => forall|j: int| 0 <= j < i ==> !self.accepts(#[trigger] devices@[j]),
                    Some((b, rb)) => {
                        &&& b < i
                        &&& self.accepts(devices@[b as int])
                        &&& rb == self.rank(devices@[b as int])
                        &&& forall|j: int|
                            0 <= j < i && self.accepts(devices@[j]) ==> rb <= self.rank(
                                #[trigger] devices@[j],
                            )
                        &&& forall|j: int|
                            0 <= j < b && self.accepts(devices@[j]) ==> rb < self.rank(
                                #[trigger] devices@[j],
                            )
                    },
                },
            decreases devices@.len() - i,
        {
            if self.is_suitable(&devices[i]) {
                let rank = device_type_rank(&self.device_type_preference, devices[i].device_type);
                match best {
                    None => {
                        best = Some((i, rank));
                    },
                    Some((_, rb)) => {
                        if rank < rb {
                            best = Some((i, rank));
                        }
                    },
                }
            }
            i = i + 1;
        }
        best
    }

    /// The device to use among `devices`: of the accepted devices, the first
    /// whose type ranks best. `None` when no device is accepted.
    pub fn pick_physical_device(
        &self,
        devices: Vec<PhysicalDeviceMetadata>,
    ) -> (r: Option<PhysicalDeviceMetadata>)
        ensures
            self.is_pick(devices@, r),
    {
        let mut devices = devices;
        let ghost all = devices@;
        match self.best_device_position(&devices) {
            None => None,
            Some((b, _)) => {
                let d = devices.swap_remove(b);
                assert(self.best_at(all, b as int));
                Some(d)
            },
        }
    }

    /// Number of accepted devices of `devices` whose type has rank `rank`.
    pub open spec fn count_with_rank(self, devices: Seq<PhysicalDeviceMetadata>, rank: nat) -> nat
        decreases devices.len(),
    {
        if devices.len() == 0 {
            0
        } else {
            self.count_with_rank(devices.drop_last(), rank) + if self.accepts(devices.last())
                && self.rank(devices.last()) == rank {
                1nat
            } else {
                0nat
            }
        }
    }

    /// How many accepted devices share the best rank: more than one means
    /// that the pick was settled by the order of `devices`. Zero when no
    /// device is accepted.
    pub fn count_equally_suitable(&self, devices: &Vec<PhysicalDeviceMetadata>) -> (r: usize)
        ensures
            !self.accepts_any(devices@) ==> r == 0,
            self.accepts_any(devices@) ==> exists|b: int| self.best_at(devices@, b),
            forall|b: int|
                self.best_at(devices@, b) ==> r == self.count_with_rank(
                    devices@,
                    self.rank(#[trigger] devices@[b]),
                ),
    {
        match self.best_device_position(devices) {
            None => 0,
            Some((b, rb)) => {
                let mut c: usize = 0;
                let mut i: usize = 0;
                while i < devices.len()
                    invariant
                        i <= devices@.len(),
                        c <= i,
                        c == self.count_with_rank(devices@.subrange(0, i as int), rb as nat),
                    decreases devices@.len() - i,
                {
                    let ok = self.is_suitable(&devices[i]);
                    let rank = device_type_rank(&self.device_type_preference, devices[i].device_type);
                    assert(devices@.subrange(0, i + 1).drop_last() =~= devices@.subrange(0, i as int));
                    if ok && rank == rb {
                        c = c + 1;
                    }
                    i = i + 1;
                }
                assert(devices@.subrange(0, devices@.len() as int) =~= devices@);
                proof {
                    assert forall|k: int| self.best_at(devices@, k) implies self.rank(
                        #[trigger] devices@[k],
                    ) == rb by {
                        assert(self.rank(devices@[k]) <= self.rank(devices@[b as int]));
                        assert(self.rank(devices@[b as int]) <= self.rank(devices@[k]));
                    }
                }
                c
            },
        }
    }
}

/// Requiring one more extension never lets a device through that the
/// criteria without it would have turned away.
pub proof fn lemma_required_extension_narrows(
    c: PhysicalDeviceCriteria,
    more: PhysicalDeviceCriteria,
    name: Vec<u8>,
    d: PhysicalDeviceMetadata,
)
    requires
        more.minimum_api_version == c.minimum_api_version,
        more.queue_families@ == c.queue_families@,
        more.required_extensions@ == c.required_extensions@.push(name),
    ensures
        more.accepts(d) ==> c.accepts(d),
{
    if more.accepts(d) {
        assert forall|k: int| 0 <= k < c.required_extensions@.len() implies has_extension(
            d.extensions@,
            (#[trigger] c.required_extensions@[k])@,
        ) by {
            assert(more.required_extensions@[k] == c.required_extensions@[k]);
        }
    }
}

/// With discrete devices preferred over integrated ones, the pick is a
/// discrete device when an accepted one exists, else an integrated device
/// when an accepted one exists, and a device of another type only when no
/// accepted device is discrete or integrated.
pub proof fn lemma_discrete_then_integrated(
    c: PhysicalDeviceCriteria,
    devices: Seq<PhysicalDeviceMetadata>,
    r: Option<PhysicalDeviceMetadata>,
)
    requires
        c.device_type_preference@ == seq![
            PhysicalDeviceType::DiscreteGpu,
            PhysicalDeviceType::IntegratedGpu,
        ],
        c.is_pick(devices, r),
    ensures
        (exists|j: int|
            0 <= j < devices.len() && c.accepts(#[trigger] devices[j]) && devices[j].device_type
                == PhysicalDeviceType::DiscreteGpu) ==> r is Some && r->0.device_type
            == PhysicalDeviceType::DiscreteGpu,
        (forall|j: int|
            0 <= j < devices.len() && c.accepts(#[trigger] devices[j]) ==> devices[j].device_type
                != PhysicalDeviceType::DiscreteGpu) && (exists|j: int|
            0 <= j < devices.len() && c.accepts(#[trigger] devices[j]) && devices[j].device_type
                == PhysicalDeviceType::IntegratedGpu) ==> r is Some && r->0.device_type
            == PhysicalDeviceType::IntegratedGpu,
        r is Some && r->0.device_type != PhysicalDeviceType::DiscreteGpu && r->0.device_type
            != PhysicalDeviceType::IntegratedGpu ==> forall|j: int|
            0 <= j < devices.len() && c.accepts(#[trigger] devices[j]) ==> devices[j].device_type
                != PhysicalDeviceType::DiscreteGpu && devices[j].device_type
                != PhysicalDeviceType::IntegratedGpu,
{
    let prefs = c.device_type_preference@;
    assert(prefs.drop_first() =~= seq![PhysicalDeviceType::IntegratedGpu]);
    assert(prefs.drop_first().drop_first() =~= Seq::<PhysicalDeviceType>::empty());
    reveal_with_fuel(preference_rank, 3);
    assert(preference_rank(prefs, PhysicalDeviceType::DiscreteGpu) == 0);
    assert(preference_rank(prefs, PhysicalDeviceType::IntegratedGpu) == 1);
    assert forall|t: PhysicalDeviceType|
        t != PhysicalDeviceType::DiscreteGpu && t != PhysicalDeviceType::IntegratedGpu implies
        #[trigger] preference_rank(prefs, t) == 2 by {
        reveal_with_fuel(preference_rank, 3);
    }
}

} // verus!
