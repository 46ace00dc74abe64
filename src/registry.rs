use vstd::prelude::*;

verus! {

/// What one machine group runs on, and the routine that prepares each of its
/// machines. The routine is carried as an opaque value of the caller's type.
pub struct MachineSetup<S> {
    pub instance_type: String,
    pub ami: String,
    pub setup: S,
}

impl<S> MachineSetup<S> {
    pub fn new(instance_type: &str, ami: &str, setup: S) -> (r: Self)
        ensures
            r.instance_type@ == instance_type@,
            r.ami@ == ami@,
            r.setup == setup,
    {
        MachineSetup { instance_type: instance_type.to_owned(), ami: ami.to_owned(), setup }
    }
}

/// A named machine group: its setup and how many machines it asks for.
pub struct Descriptor<S> {
    pub name: String,
    pub number: u32,
    pub setup: MachineSetup<S>,
}

/// Position of the group called `name` in `ds`, if there is one.
pub open spec fn index_of_name<S>(ds: Seq<Descriptor<S>>, name: Seq<char>) -> Option<int> {
    if exists|i: int| 0 <= i < ds.len() && (#[trigger] ds[i]).name@ == name {
        Some(choose|i: int| 0 <= i < ds.len() && (#[trigger] ds[i]).name@ == name)
    } else {
        None
    }
}

pub open spec fn entry_is<S>(d: Descriptor<S>, name: Seq<char>, number: u32, setup: MachineSetup<S>) -> bool {
    &&& d.name@ == name
    &&& d.number == number
    &&& d.setup == setup
}

/// No two groups share a name.
pub open spec fn names_unique<S>(ds: Seq<Descriptor<S>>) -> bool {
    forall|i: int, j: int|
        0 <= i < ds.len() && 0 <= j < ds.len() && i != j ==> (#[trigger] ds[i]).name@
            != (#[trigger] ds[j]).name@
}

/// Sum of the machine counts of `ds`.
pub open spec fn total_count<S>(ds: Seq<Descriptor<S>>) -> nat
    decreases ds.len(),
{
    if ds.len() == 0 {
        0
    } else {
        total_count(ds.drop_last()) + ds.last().number as nat
    }
}

/// The machine groups of a run, registered before it starts.
pub struct FlotillaBuilder<S> {
    descriptors: Vec<Descriptor<S>>,
    max_duration: i64,
}

impl<S> FlotillaBuilder<S> {
    /// The groups in the order of their first registration.
    pub closed spec fn groups(&self) -> Seq<Descriptor<S>> {
        self.descriptors@
    }

    /// Requested lifetime of the run's capacity, in minutes.
    pub closed spec fn max_duration_minutes(&self) -> int {
        self.max_duration as int
    }

    pub open spec fn wf(&self) -> bool {
        names_unique(self.groups())
    }

    /// An empty registry whose capacity lifetime is one hour.
    pub fn new() -> (r: Self)
        ensures
            r.wf(),
            r.groups().len() == 0,
            r.max_duration_minutes() == 60,
    {
        FlotillaBuilder { descriptors: Vec::new(), max_duration: 60 }
    }

    /// Registers the group `name`; a group already registered under that name
    /// is replaced in place.
    pub fn add_set(&mut self, name: &str, number: u32, setup: MachineSetup<S>)
        requires
            old(self).wf(),
        ensures
            final(self).wf(),
            final(self).max_duration_minutes() == old(self).max_duration_minutes(),
            match index_of_name(old(self).groups(), name@) {
                Some(i) => {
                    &&& final(self).groups().len() == old(self).groups().len()
                    &&& forall|k: int|
                        0 <= k < old(self).groups().len() && k != i ==> final(self).groups()[k]
                            == old(self).groups()[k]
                    &&& entry_is(final(self).groups()[i], name@, number, setup)
                },
                None => {
                    &&& final(self).groups().len() == old(self).groups().len() + 1
                    &&& final(self).groups().drop_last() == old(self).groups()
                    &&& entry_is(final(self).groups().last(), name@, number, setup)
                },
            },
    {
        let d = Descriptor { name: name.to_owned(), number, setup };
        let mut i: usize = 0;
        while i < self.descriptors.len()
            invariant
                self.wf(),
                self.descriptors@ == old(self).descriptors@,
                self.max_duration == old(self).max_duration,
                i <= self.descriptors@.len(),
                entry_is(d, name@, number, setup),
                forall|k: int| 0 <= k < i ==> (#[trigger] self.descriptors@[k]).name@ != name@,
            decreases self.descriptors@.len() - i,
        {
            if self.descriptors[i].name == d.name {
                assert(index_of_name(self.descriptors@, name@) == Some(i as int));
                let ghost prev = self.descriptors@;
                self.descriptors.set(i, d);
                assert(self.descriptors@ == prev.update(i as int, d));
                return;
            }
            i = i + 1;
        }
        assert(index_of_name(self.descriptors@, name@) is None);
        self.descriptors.push(d);
    }

    /// Sets the capacity lifetime to `hours` hours.
    pub fn set_max_duration(&mut self, hours: u8)
        ensures
            final(self).groups() == old(self).groups(),
            final(self).max_duration_minutes() == hours as int * 60,
    {
        self.max_duration = hours as i64 * 60;
    }

    /// Requested lifetime of the run's capacity, in minutes.
    pub fn max_duration(&self) -> (r: i64)
        ensures
            r == self.max_duration_minutes(),
    {
        self.max_duration
    }

    /// Read access to the registered groups.
    pub fn descriptors(&self) -> (r: &Vec<Descriptor<S>>)
        ensures
            r@ == self.groups(),
    {
        &self.descriptors
    }

    /// Hands the registered groups over to a run.
    pub fn into_descriptors(self) -> (r: Vec<Descriptor<S>>)
        ensures
            r@ == self.groups(),
    {
        self.descriptors
    }
}

impl<S> Default for FlotillaBuilder<S> {
    fn default() -> (r: Self)
        ensures
            r.wf(),
            r.groups().len() == 0,
            r.max_duration_minutes() == 60,
    {
        Self::new()
    }
}

} // verus!
