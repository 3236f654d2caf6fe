use vstd::prelude::*;

use crate::flags::{
    contains, count_ones, flags_contain, flags_intersect, intersects, popcount, QUEUE_COMPUTE,
    QUEUE_FLAGS_ALL, QUEUE_GRAPHICS, QUEUE_TRANSFER,
};

verus! {

/// Bit pattern of the single-precision priority `1.0`.
pub const PRIORITY_ONE_BITS: u32 = 0x3f80_0000;

/// What a device reports of one of its queue families.
#[derive(Clone, Copy, Debug, PartialEq, Eq, Structural)]
pub struct QueueFamilyProperties {
    /// Capability bits of the family.
    pub queue_flags: u32,
    /// Number of queues the family exposes.
    pub queue_count: u32,
}

/// What a logical device should create for one queue family: the family's
/// index and one priority per queue, as single-precision bit patterns.
#[derive(Clone, Debug)]
pub struct DeviceQueueCreateInfo {
    pub queue_family_index: u32,
    pub queue_priorities: Vec<u32>,
}

/// A description of a wanted queue family: capabilities that must, must not,
/// should and should not be there, and one priority per queue wanted (each
/// the bit pattern of a single-precision number).
#[derive(Clone, Debug)]
pub struct QueueFamilyRequest {
    pub must_support: u32,
    pub prefer_support: u32,
    pub must_not_support: u32,
    pub prefer_not_support: u32,
    pub priorities: Vec<u32>,
}

impl QueueFamilyRequest {
    /// The family passes the hard filter: every required bit, no forbidden
    /// bit, and room for one queue per priority.
    pub open spec fn admits(self, f: QueueFamilyProperties) -> bool {
        &&& flags_contain(f.queue_flags, self.must_support)
        &&& !flags_intersect(f.queue_flags, self.must_not_support)
        &&& f.queue_count >= self.priorities@.len()
    }

    /// Number of preferred capabilities that the family offers.
    pub open spec fn extra_supports(self, f: QueueFamilyProperties) -> nat {
        popcount(f.queue_flags & self.prefer_support)
    }

    /// Number of unwanted capabilities that the family offers.
    pub open spec fn extra_excludes(self, f: QueueFamilyProperties) -> nat {
        popcount(f.queue_flags & self.prefer_not_support)
    }

    /// `f` ranks strictly above `g`: more preferred capabilities, or as many
    /// and fewer unwanted ones.
    pub open spec fn ranks_above(self, f: QueueFamilyProperties, g: QueueFamilyProperties) -> bool {
        ||| self.extra_supports(f) > self.extra_supports(g)
        ||| (self.extra_supports(f) == self.extra_supports(g) && self.extra_excludes(f)
            < self.extra_excludes(g))
    }

    /// Position `i` holds the chosen family: it is admitted, no admitted
    /// family ranks above it, and it ranks above every admitted family before it.
    pub open spec fn best_at(self, fams: Seq<QueueFamilyProperties>, i: int) -> bool {
        &&& 0 <= i < fams.len()
        &&& self.admits(fams[i])
        &&& forall|j: int|
            0 <= j < fams.len() && self.admits(fams[j]) ==> !self.ranks_above(
                #[trigger] fams[j],
                fams[i],
            )
        &&& forall|j: int| 0 <= j < i && self.admits(fams[j]) ==> self.ranks_above(fams[i], #[trigger] fams[j])
    }

    /// Some family of `fams` is admitted.
    pub open spec fn admits_any(self, fams: Seq<QueueFamilyProperties>) -> bool {
        exists|j: int| 0 <= j < fams.len() && self.admits(#[trigger] fams[j])
    }

    /// `r` is what the selection gives on `fams`.
    pub open spec fn is_choice(self, fams: Seq<QueueFamilyProperties>, r: Option<u32>) -> bool {
        match r {
            None => !self.admits_any(fams),
            Some(i) => self.best_at(fams, i as int),
        }
    }

    /// A request with no requirement, no preference and no queue.
    pub fn empty() -> (r: Self)
        ensures
            r.must_support == 0,
            r.prefer_support == 0,
            r.must_not_support == 0,
            r.prefer_not_support == 0,
            r.priorities@.len() == 0,
    {
        QueueFamilyRequest {
            must_support: 0,
            prefer_support: 0,
            must_not_support: 0,
            prefer_not_support: 0,
            priorities: Vec::new(),
        }
    }

    /// Adds `flags` to the required capabilities.
    pub fn must_support(self, flags: u32) -> (r: Self)
        ensures
            r == (QueueFamilyRequest { must_support: self.must_support | flags, ..self }),
    {
        QueueFamilyRequest { must_support: self.must_support | flags, ..self }
    }

    /// Adds `flags` to the preferred capabilities.
    pub fn prefer_support(self, flags: u32) -> (r: Self)
        ensures
            r == (QueueFamilyRequest { prefer_support: self.prefer_support | flags, ..self }),
    {
        QueueFamilyRequest { prefer_support: self.prefer_support | flags, ..self }
    }

    /// Adds `flags` to the forbidden capabilities.
    pub fn must_not_support(self, flags: u32) -> (r: Self)
        ensures
            r == (QueueFamilyRequest { must_not_support: self.must_not_support | flags, ..self }),
    {
        QueueFamilyRequest { must_not_support: self.must_not_support | flags, ..self }
    }

    /// Adds `flags` to the unwanted capabilities.
    pub fn prefer_not_support(self, flags: u32) -> (r: Self)
        ensures
            r == (QueueFamilyRequest {
                prefer_not_support: self.prefer_not_support | flags,
                ..self
            }),
    {
        QueueFamilyRequest { prefer_not_support: self.prefer_not_support | flags, ..self }
    }

    /// Requires graphics support.
    pub fn require_graphics(self) -> (r: Self)
        ensures
            r == (QueueFamilyRequest { must_support: self.must_support | QUEUE_GRAPHICS, ..self }),
    {
        self.must_support(QUEUE_GRAPHICS)
    }

    /// Requires compute support.
    pub fn require_compute(self) -> (r: Self)
        ensures
            r == (QueueFamilyRequest { must_support: self.must_support | QUEUE_COMPUTE, ..self }),
    {
        self.must_support(QUEUE_COMPUTE)
    }

    /// Requires transfer support.
    pub fn require_transfer(self) -> (r: Self)
        ensures
            r == (QueueFamilyRequest { must_support: self.must_support | QUEUE_TRANSFER, ..self }),
    {
        self.must_support(QUEUE_TRANSFER)
    }

    /// Sets the unwanted capabilities to every defined capability that is
    /// neither required nor preferred, so that a family dedicated to the
    /// request ranks first.
    pub fn prefer_alone(self) -> (r: Self)
        ensures
            r == (QueueFamilyRequest {
                prefer_not_support: !(self.must_support | self.prefer_support) & QUEUE_FLAGS_ALL,
                ..self
            }),
    {
        let unwanted = !(self.must_support | self.prefer_support) & QUEUE_FLAGS_ALL;
        QueueFamilyRequest { prefer_not_support: unwanted, ..self }
    }

    /// Asks for one queue per entry of `priorities`, with that priority.
    pub fn amount_with_priorities(self, priorities: Vec<u32>) -> (r: Self)
        ensures
            r == (QueueFamilyRequest { priorities, ..self }),
    {
        QueueFamilyRequest { priorities, ..self }
    }

    /// Asks for `amount` queues, each with priority `1.0`.
    pub fn amount(self, amount: usize) -> (r: Self)
        ensures
            r.must_support == self.must_support,
            r.prefer_support == self.prefer_support,
            r.must_not_support == self.must_not_support,
            r.prefer_not_support == self.prefer_not_support,
            r.priorities@ == Seq::new(amount as nat, |k: int| PRIORITY_ONE_BITS),
    {
        let mut priorities: Vec<u32> = Vec::new();
        let mut k: usize = 0;
        while k < amount
            invariant
                k <= amount,
                priorities@ == Seq::new(k as nat, |j: int| PRIORITY_ONE_BITS),
            decreases amount - k,
        {
            priorities.push(PRIORITY_ONE_BITS);
            k = k + 1;
            assert(priorities@ =~= Seq::new(k as nat, |j: int| PRIORITY_ONE_BITS));
        }
        self.amount_with_priorities(priorities)
    }

    /// Whether `family` passes the hard filter.
    pub fn admits_family(&self, family: &QueueFamilyProperties) -> (r: bool)
        ensures
            r == self.admits(*family),
    {
        contains(family.queue_flags, self.must_support) && !intersects(
            family.queue_flags,
            self.must_not_support,
        ) && family.queue_count as usize >= self.priorities.len()
    }

    /// Position of the family chosen among `queues`, if any is admitted:
    /// the first of those that rank highest.
    pub fn choose_queue_family_position(
        &self,
        queues: &[QueueFamilyProperties],
    ) -> (r: Option<usize>)
        ensures
            match r {
                None => !self.admits_any(queues@),
                Some(i) => self.best_at(queues@, i as int),
            },
    {
        let mut best: Option<(usize, u32, u32)> = None;
        let mut i: usize = 0;
        while i < queues.len()
            invariant
                i <= queues@.len(),
                match best {
                    None => forall|j: int|
                        0 <= j < i ==> !self.admits(#[trigger] queues@[j]),
                    Some((b, sb, eb)) => {
                        &&& b < i
                        &&& self.admits(queues@[b as int])
                        &&& sb == self.extra_supports(queues@[b as int])
                        &&& eb == self.extra_excludes(queues@[b as int])
                        &&& forall|j: int|
                            0 <= j < i && self.admits(queues@[j]) ==> !self.ranks_above(
                                #[trigger] queues@[j],
                                queues@[b as int],
                            )
                        &&& forall|j: int|
                            0 <= j < b && self.admits(queues@[j]) ==> self.ranks_above(
                                queues@[b as int],
                                #[trigger] queues@[j],
                            )
                    },
                },
            decreases queues@.len() - i,
        {
            let family = &queues[i];
            if self.admits_family(family) {
                let s = count_ones(family.queue_flags & self.prefer_support);
                let e = count_ones(family.queue_flags & self.prefer_not_support);
                match best {
                    None => {
                        best = Some((i, s, e));
                    },
                    Some((_, sb, eb)) => {
                        if s > sb || (s == sb && e < eb) {
                            best = Some((i, s, e));
                        }
                    },
                }
            }
            i = i + 1;
        }
        match best {
            None => None,
            Some((b, _, _)) => Some(b),
        }
    }

    /// Index of the family chosen among `queues`: the first of the admitted
    /// families that offer the most preferred capabilities and, among those,
    /// the fewest unwanted ones. `None` when no family is admitted.
    pub fn choose_queue_family_index(&self, queues: &[QueueFamilyProperties]) -> (r: Option<u32>)
        requires
            queues@.len() <= u32::MAX,
        ensures
            self.is_choice(queues@, r),
            r matches Some(i) ==> flags_contain(queues@[i as int].queue_flags, self.must_support),
            r matches Some(i) ==> !flags_intersect(
                queues@[i as int].queue_flags,
                self.must_not_support,
            ),
            r matches Some(i) ==> queues@[i as int].queue_count >= self.priorities@.len(),
            r matches Some(i) ==> forall|j: int|
                0 <= j < i && self.admits(queues@[j]) ==> self.ranks_above(
                    queues@[i as int],
                    #[trigger] queues@[j],
                ),
            self.must_support == 0 && self.must_not_support == 0 && self.prefer_support == 0
                && self.prefer_not_support == 0 && self.priorities@.len() == 0 && queues@.len()
                > 0 ==> r == Some(0u32),
    {
        let r = match self.choose_queue_family_position(queues) {
            None => None,
            Some(i) => Some(i as u32),
        };
        proof {
            if self.must_support == 0 && self.must_not_support == 0 && self.prefer_support == 0
                && self.prefer_not_support == 0 && self.priorities@.len() == 0 {
                lemma_unconstrained_request_takes_first(*self, queues@, r);
            }
        }
        r
    }

    /// What a logical device should create for the chosen family: its index
    /// and a copy of the priorities. `None` when no family is admitted.
    pub fn get_create_info(
        &self,
        queues: &[QueueFamilyProperties],
    ) -> (r: Option<DeviceQueueCreateInfo>)
        requires
            queues@.len() <= u32::MAX,
        ensures
            match r {
                None => self.is_choice(queues@, None),
                Some(info) => self.is_choice(queues@, Some(info.queue_family_index))
                    && info.queue_priorities@ == self.priorities@,
            },
    {
        match self.choose_queue_family_index(queues) {
            None => None,
            Some(index) => {
                let mut priorities: Vec<u32> = Vec::new();
                let mut k: usize = 0;
                while k < self.priorities.len()
                    invariant
                        k <= self.priorities@.len(),
                        priorities@ == self.priorities@.subrange(0, k as int),
                    decreases self.priorities@.len() - k,
                {
                    priorities.push(self.priorities[k]);
                    k = k + 1;
                    assert(priorities@ =~= self.priorities@.subrange(0, k as int));
                }
                assert(priorities@ =~= self.priorities@);
                Some(DeviceQueueCreateInfo { queue_family_index: index, queue_priorities: priorities })
            },
        }
    }
}

/// A request with no requirement, no preference and no queue takes the first
/// family when there is one, and none when the list is empty.
pub proof fn lemma_unconstrained_request_takes_first(
    q: QueueFamilyRequest,
    fams: Seq<QueueFamilyProperties>,
    r: Option<u32>,
)
    requires
        q.must_support == 0,
        q.must_not_support == 0,
        q.prefer_support == 0,
        q.prefer_not_support == 0,
        q.priorities@.len() == 0,
        q.is_choice(fams, r),
    ensures
        fams.len() > 0 ==> r == Some(0u32),
        fams.len() == 0 ==> r is None,
{
    assert(forall|x: u32| #[trigger] (x & 0u32) == 0u32) by (bit_vector);
    if fams.len() > 0 {
        assert(q.admits(fams[0]));
        if let Some(i) = r {
            if i != 0 {
                assert(q.ranks_above(fams[i as int], fams[0]));
            }
        }
    }
}

/// The chosen family has every required capability and no forbidden one.
pub proof fn lemma_choice_respects_flags(q: QueueFamilyRequest, fams: Seq<QueueFamilyProperties>, i: u32)
    requires
        q.is_choice(fams, Some(i)),
    ensures
        flags_contain(fams[i as int].queue_flags, q.must_support),
        !flags_intersect(fams[i as int].queue_flags, q.must_not_support),
{
}

/// The chosen family has room for one queue per requested priority.
pub proof fn lemma_choice_has_room(q: QueueFamilyRequest, fams: Seq<QueueFamilyProperties>, i: u32)
    requires
        q.is_choice(fams, Some(i)),
    ensures
        fams[i as int].queue_count >= q.priorities@.len(),
{
}

/// Of two admitted families with the same scores, the later one is never chosen.
pub proof fn lemma_ties_go_to_lower_index(
    q: QueueFamilyRequest,
    fams: Seq<QueueFamilyProperties>,
    i: u32,
    j: int,
    k: int,
)
    requires
        q.is_choice(fams, Some(i)),
        0 <= j < k < fams.len(),
        q.admits(fams[j]),
        q.admits(fams[k]),
        q.extra_supports(fams[j]) == q.extra_supports(fams[k]),
        q.extra_excludes(fams[j]) == q.extra_excludes(fams[k]),
    ensures
        i != k,
{
    if i == k {
        assert(q.ranks_above(fams[k], fams[j]));
    }
}

} // verus!
