//! The registry of live bridges: for each service at most one worker process
//! and the status last learned of it.

use crate::status::BridgeStatus;
use crate::text::str_eq;
use vstd::prelude::*;

verus! {

/// One live worker: the handle of its process, owned by this value alone, and
/// its current status.
#[derive(Debug)]
pub struct BridgeProcess<H> {
    pub child: H,
    pub status: BridgeStatus,
}

/// The names of the services that have a live worker and, at the same
/// positions, their workers.
struct Table<H> {
    services: Vec<String>,
    processes: Vec<BridgeProcess<H>>,
}

/// The registry: a table of as many names as workers, in which no name occurs
/// twice.
///
/// The table is a field of its own so that it can be taken out, changed and
/// put back as a whole: the registry is well formed whenever it can be seen.
pub struct BridgeManager<H> {
    table: Table<H>,
}

/// Whether `names` holds `service` at `index`.
spec fn holds_at(names: Seq<String>, service: Seq<char>, index: int) -> bool {
    0 <= index < names.len() && names[index]@ == service
}

/// Whether no name occurs twice.
spec fn distinct(names: Seq<String>) -> bool {
    forall|i: int, j: int| 0 <= i < j < names.len() ==> names[i]@ != names[j]@
}

/// The mapping that a list of names and the list of their workers stand for.
spec fn mapping<H>(names: Seq<String>, workers: Seq<BridgeProcess<H>>) -> Map<
    Seq<char>,
    BridgeProcess<H>,
> {
    Map::new(
        |service: Seq<char>| exists|i: int| holds_at(names, service, i),
        |service: Seq<char>| workers[choose|i: int| holds_at(names, service, i)],
    )
}

/// Where no name occurs twice, the mapping holds under each name the worker at
/// the name's position.
proof fn lemma_mapping_at<H>(names: Seq<String>, workers: Seq<BridgeProcess<H>>, index: int)
    requires
        distinct(names),
        0 <= index < names.len(),
    ensures
        mapping(names, workers).contains_key(names[index]@),
        mapping(names, workers)[names[index]@] == workers[index],
{
    let service = names[index]@;
    assert(holds_at(names, service, index));
    let chosen = choose|i: int| holds_at(names, service, i);
    if chosen < index {
        assert(names[chosen]@ != names[index]@);
    } else if index < chosen {
        assert(names[index]@ != names[chosen]@);
    }
}

/// Replacing the worker at one position replaces it in the mapping.
proof fn lemma_mapping_update<H>(
    names: Seq<String>,
    workers: Seq<BridgeProcess<H>>,
    index: int,
    worker: BridgeProcess<H>,
)
    requires
        distinct(names),
        names.len() == workers.len(),
        0 <= index < names.len(),
    ensures
        mapping(names, workers.update(index, worker)) == mapping(names, workers).insert(
            names[index]@,
            worker,
        ),
{
    let changed = workers.update(index, worker);
    assert forall|key: Seq<char>| #[trigger] mapping(names, workers).contains_key(key) implies mapping(
        names,
        changed,
    )[key] == mapping(names, workers).insert(names[index]@, worker)[key] by {
        let i = choose|i: int| holds_at(names, key, i);
        lemma_mapping_at(names, workers, i);
        lemma_mapping_at(names, changed, i);
        lemma_mapping_at(names, changed, index);
    }
    lemma_mapping_at(names, workers, index);
    assert(mapping(names, changed) =~= mapping(names, workers).insert(names[index]@, worker));
}

/// Appending a name that is not yet there adds it to the mapping.
proof fn lemma_mapping_push<H>(
    names: Seq<String>,
    workers: Seq<BridgeProcess<H>>,
    name: String,
    worker: BridgeProcess<H>,
)
    requires
        distinct(names),
        names.len() == workers.len(),
        forall|i: int| !holds_at(names, name@, i),
    ensures
        distinct(names.push(name)),
        mapping(names.push(name), workers.push(worker)) == mapping(names, workers).insert(
            name@,
            worker,
        ),
{
    let longer = names.push(name);
    let more = workers.push(worker);
    assert forall|i: int, j: int| 0 <= i < j < longer.len() implies longer[i]@ != longer[j]@ by {
        if j == names.len() {
            assert(!holds_at(names, name@, i));
        }
    }
    assert forall|key: Seq<char>|
        mapping(longer, more).contains_key(key) == #[trigger] mapping(names, workers).insert(
            name@,
            worker,
        ).contains_key(key) by {
        if key == name@ {
            assert(holds_at(longer, key, names.len() as int));
        } else {
            if mapping(names, workers).contains_key(key) {
                let i = choose|i: int| holds_at(names, key, i);
                assert(holds_at(longer, key, i));
            }
            if mapping(longer, more).contains_key(key) {
                let i = choose|i: int| holds_at(longer, key, i);
                assert(holds_at(names, key, i));
            }
        }
    }
    assert forall|key: Seq<char>| #[trigger] mapping(longer, more).contains_key(key) implies mapping(
        longer,
        more,
    )[key] == mapping(names, workers).insert(name@, worker)[key] by {
        let i = choose|i: int| holds_at(longer, key, i);
        lemma_mapping_at(longer, more, i);
        if i < names.len() {
            lemma_mapping_at(names, workers, i);
        }
    }
    assert(mapping(longer, more) =~= mapping(names, workers).insert(name@, worker));
}

/// Taking out the name at one position, and its worker, removes the name from
/// the mapping.
proof fn lemma_mapping_remove<H>(names: Seq<String>, workers: Seq<BridgeProcess<H>>, index: int)
    requires
        distinct(names),
        names.len() == workers.len(),
        0 <= index < names.len(),
    ensures
        distinct(names.remove(index)),
        mapping(names.remove(index), workers.remove(index)) == mapping(names, workers).remove(
            names[index]@,
        ),
{
    let fewer = names.remove(index);
    let less = workers.remove(index);
    let gone = names[index]@;
    assert forall|i: int, j: int| 0 <= i < j < fewer.len() implies fewer[i]@ != fewer[j]@ by {
        let a = if i < index { i } else { i + 1 };
        let b = if j < index { j } else { j + 1 };
        assert(names[a]@ != names[b]@);
    }
    assert forall|key: Seq<char>|
        mapping(fewer, less).contains_key(key) == #[trigger] mapping(names, workers).remove(
            gone,
        ).contains_key(key) by {
        if mapping(fewer, less).contains_key(key) {
            let i = choose|i: int| holds_at(fewer, key, i);
            let a = if i < index { i } else { i + 1 };
            assert(holds_at(names, key, a));
            if a < index {
                assert(names[a]@ != names[index]@);
            } else {
                assert(names[index]@ != names[a]@);
            }
        }
        if mapping(names, workers).remove(gone).contains_key(key) {
            let a = choose|i: int| holds_at(names, key, i);
            let i = if a < index { a } else { a - 1 };
            assert(holds_at(fewer, key, i));
        }
    }
    assert forall|key: Seq<char>| #[trigger] mapping(fewer, less).contains_key(key) implies mapping(
        fewer,
        less,
    )[key] == mapping(names, workers).remove(gone)[key] by {
        let i = choose|i: int| holds_at(fewer, key, i);
        let a = if i < index { i } else { i + 1 };
        lemma_mapping_at(fewer, less, i);
        lemma_mapping_at(names, workers, a);
    }
    assert(mapping(fewer, less) =~= mapping(names, workers).remove(gone));
}

/// The registry content after `status` is recorded for `service`: the same
/// entries, with the new status in the entry of `service` if it has one.
pub open spec fn with_status<H>(
    bridges: Map<Seq<char>, BridgeProcess<H>>,
    service: Seq<char>,
    status: BridgeStatus,
) -> Map<Seq<char>, BridgeProcess<H>> {
    if bridges.contains_key(service) {
        bridges.insert(service, BridgeProcess { child: bridges[service].child, status })
    } else {
        bridges
    }
}

/// The registry content after a status change for `service`, or after none.
pub open spec fn with_change<H>(
    bridges: Map<Seq<char>, BridgeProcess<H>>,
    service: Seq<char>,
    change: Option<BridgeStatus>,
) -> Map<Seq<char>, BridgeProcess<H>> {
    match change {
        Some(status) => with_status(bridges, service, status),
        None => bridges,
    }
}

/// The registry content after the process handle of `service` has become
/// `child`: the same entries and statuses, with the new handle in the entry of
/// `service` if it has one.
pub open spec fn with_child<H>(
    bridges: Map<Seq<char>, BridgeProcess<H>>,
    service: Seq<char>,
    child: H,
) -> Map<Seq<char>, BridgeProcess<H>> {
    if bridges.contains_key(service) {
        bridges.insert(service, BridgeProcess { child, status: bridges[service].status })
    } else {
        bridges
    }
}

/// The status that a registry content reports for a service: that of the
/// service's entry, or `Disconnected` where it has none.
pub open spec fn status_in<H>(
    bridges: Map<Seq<char>, BridgeProcess<H>>,
    service: Seq<char>,
) -> BridgeStatus {
    if bridges.contains_key(service) {
        bridges[service].status
    } else {
        BridgeStatus::Disconnected
    }
}

impl<H> View for BridgeManager<H> {
    type V = Map<Seq<char>, BridgeProcess<H>>;

    closed spec fn view(&self) -> Map<Seq<char>, BridgeProcess<H>> {
        mapping(self.table.services@, self.table.processes@)
    }
}

impl<H> BridgeManager<H> {
    #[verifier::type_invariant]
    spec fn well_formed(self) -> bool {
        self.table.services@.len() == self.table.processes@.len() && distinct(
            self.table.services@,
        )
    }

    /// The status that the registry reports for a service.
    pub open spec fn status_of(self, service: Seq<char>) -> BridgeStatus {
        status_in(self@, service)
    }

    /// An empty registry.
    pub fn new() -> (manager: Self)
        ensures
            manager@ == Map::<Seq<char>, BridgeProcess<H>>::empty(),
    {
        let manager = BridgeManager {
            table: Table { services: Vec::new(), processes: Vec::new() },
        };
        assert(manager@ =~= Map::<Seq<char>, BridgeProcess<H>>::empty());
        manager
    }

    /// The position of `service` among the names, if it is there.
    fn position(&self, service: &str) -> (found: Option<usize>)
        ensures
            match found {
                Some(index) => holds_at(self.table.services@, service@, index as int),
                None => forall|i: int| !holds_at(self.table.services@, service@, i),
            },
    {
        let mut index: usize = 0;
        while index < self.table.services.len()
            invariant
                index <= self.table.services.len(),
                forall|i: int| 0 <= i < index ==> !holds_at(self.table.services@, service@, i),
            decreases self.table.services.len() - index,
        {
            if str_eq(self.table.services[index].as_str(), service) {
                return Some(index);
            }
            index += 1;
        }
        None
    }

    /// Whether `service` has an entry.
    pub fn contains(&self, service: &str) -> (present: bool)
        ensures
            present == self@.contains_key(service@),
    {
        self.position(service).is_some()
    }

    /// Puts a worker under `service`, in place of any entry that the service had.
    pub fn insert(&mut self, service: String, process: BridgeProcess<H>)
        ensures
            final(self)@ == old(self)@.insert(service@, process),
    {
        proof {
            use_type_invariant(&*self);
        }
        let found = self.position(service.as_str());
        let mut table = Table { services: Vec::new(), processes: Vec::new() };
        core::mem::swap(&mut self.table, &mut table);
        match found {
            Some(index) => {
                proof {
                    lemma_mapping_update(table.services@, table.processes@, index as int, process);
                }
                table.processes.set(index, process);
            },
            None => {
                proof {
                    lemma_mapping_push(table.services@, table.processes@, service, process);
                }
                table.services.push(service);
                table.processes.push(process);
            },
        }
        self.table = table;
    }

    /// Takes the entry of `service` out of the registry and returns its
    /// worker; leaves the registry as it is where the service has no entry.
    pub fn remove(&mut self, service: &str) -> (removed: Option<BridgeProcess<H>>)
        ensures
            final(self)@ == old(self)@.remove(service@),
            match removed {
                Some(process) => old(self)@.contains_key(service@) && old(self)@[service@]
                    == process,
                None => !old(self)@.contains_key(service@),
            },
    {
        proof {
            use_type_invariant(&*self);
        }
        match self.position(service) {
            Some(index) => {
                let mut table = Table { services: Vec::new(), processes: Vec::new() };
                core::mem::swap(&mut self.table, &mut table);
                proof {
                    lemma_mapping_at(table.services@, table.processes@, index as int);
                    lemma_mapping_remove(table.services@, table.processes@, index as int);
                }
                let _ = table.services.remove(index);
                let process = table.processes.remove(index);
                self.table = table;
                Some(process)
            },
            None => {
                assert(self@.remove(service@) =~= self@);
                None
            },
        }
    }

    /// Records `status` for `service`; where the service has no entry, nothing
    /// changes. The worker's process handle stays as it is.
    pub fn set_status(&mut self, service: &str, status: BridgeStatus)
        ensures
            final(self)@ == with_status(old(self)@, service@, status),
    {
        proof {
            use_type_invariant(&*self);
        }
        match self.position(service) {
            Some(index) => {
                proof {
                    lemma_mapping_at(self.table.services@, self.table.processes@, index as int);
                    lemma_mapping_update(
                        self.table.services@,
                        self.table.processes@,
                        index as int,
                        BridgeProcess { child: self.table.processes@[index as int].child, status },
                    );
                }
                self.table.processes[index].status = status;
            },
            None => {},
        }
    }

    /// Lends the process handle of the worker of `service`, for the caller to
    /// write to; `None` where the service has no entry. Whatever the caller
    /// does to the handle, the registry keeps every entry and every status.
    pub fn child_mut(&mut self, service: &str) -> (found: Option<&mut H>)
        ensures
            found is Some <==> old(self)@.contains_key(service@),
            match found {
                Some(child) => *child == old(self)@[service@].child && final(self)@
                    == with_child(old(self)@, service@, *final(child)),
                None => final(self)@ == old(self)@,
            },
    {
        proof {
            use_type_invariant(&*self);
        }
        match self.position(service) {
            Some(index) => {
                proof {
                    lemma_mapping_at(self.table.services@, self.table.processes@, index as int);
                }
                let child = &mut self.table.processes[index].child;
                proof {
                    lemma_mapping_update(
                        old(self).table.services@,
                        old(self).table.processes@,
                        index as int,
                        BridgeProcess {
                            child: *final(child),
                            status: old(self).table.processes@[index as int].status,
                        },
                    );
                }
                Some(child)
            },
            None => None,
        }
    }

    /// Returns the status of `service`; for a service without an entry that is
    /// `Disconnected`.
    pub fn status(&self, service: &str) -> (status: BridgeStatus)
        ensures
            status == self.status_of(service@),
    {
        proof {
            use_type_invariant(self);
        }
        match self.position(service) {
            Some(index) => {
                proof {
                    lemma_mapping_at(self.table.services@, self.table.processes@, index as int);
                }
                self.table.processes[index].status
            },
            None => BridgeStatus::Disconnected,
        }
    }
}

} // verus!
