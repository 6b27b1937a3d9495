//! The services that are open: shared between those who use a connection,
//! opened anew when the connection changed, and dropped when nobody used them
//! for a while.
use crate::connection_fingerprint;
use crate::connection_fingerprint::full_fingerprint;
use crate::digest;
use crate::line;
use crate::line::remaining;
use crate::models;
use crate::models::FileManagerError;
use crate::opening;
use crate::opening::operation_timeout;
use crate::opening::prepare_saved;
use crate::opening::runtime_endpoint;
use crate::opening::BuildFailure;
use crate::opening::ConnectionEncodings;
use crate::opening::ConnectionsLoad;
use crate::opening::EndpointStep;
use crate::opening::FileOperatorLease;
use crate::opening::KnownConnection;
use crate::opening::OperatorReady;
use crate::opening::PreparedOperator;
use crate::opening::SavedConnection;
use crate::text_map;
use crate::text_map::TextMap;
use std::sync::Arc;
use vstd::prelude::*;

verus! {

/// A service that is open. Times are in nanoseconds.
pub struct CachedOperator {
    pub connection: SavedConnection,
    pub base_fingerprint: [u8; 32],
    pub fingerprint: [u8; 32],
    pub operator: Arc<opendal::Operator>,
    pub operation_timeout: Option<u64>,
    pub idle_timeout_secs: u64,
    pub last_used: u64,
    /// How many services were opened before it.
    pub number: Ghost<nat>,
}

/// The services that are open, how often the service of a connection was
/// dropped, and who is in line to open a connection. Openers are told apart
/// by numbers: whoever opens connections gives each opener its own.
pub struct FileOperatorRegistry {
    instances: TextMap<CachedOperator>,
    generations: TextMap<u64>,
    build_locks: TextMap<Vec<u64>>,
    opened: Ghost<nat>,
}

/// Nobody used the service for as long as it may be idle.
pub open spec fn is_expired(entry: CachedOperator, now: u64) -> bool {
    let idle = if now >= entry.last_used {
        now - entry.last_used
    } else {
        0
    };
    idle >= entry.idle_timeout_secs * 1_000_000_000
}

/// The services that are not dropped.
pub open spec fn kept(entries: Seq<(Seq<char>, CachedOperator)>, now: u64) -> Seq<(Seq<char>, CachedOperator)>
    decreases entries.len(),
{
    if entries.len() == 0 {
        entries
    } else if is_expired(entries.last().1, now) {
        kept(entries.drop_last(), now)
    } else {
        kept(entries.drop_last(), now).push(entries.last())
    }
}

/// The connections whose services are dropped.
pub open spec fn expired(entries: Seq<(Seq<char>, CachedOperator)>, now: u64) -> Seq<(Seq<char>, SavedConnection)>
    decreases entries.len(),
{
    if entries.len() == 0 {
        Seq::empty()
    } else if is_expired(entries.last().1, now) {
        expired(entries.drop_last(), now).push((entries.last().0, entries.last().1.connection))
    } else {
        expired(entries.drop_last(), now)
    }
}

/// A connection is among some.
pub open spec fn is_among(connections: Seq<(Seq<char>, SavedConnection)>, id: Seq<char>) -> bool {
    exists|i: int| 0 <= i < connections.len() && (#[trigger] connections[i]).0 == id
}

/// The generation behind a generation.
pub open spec fn next_generation(generation: u64) -> u64 {
    if generation == u64::MAX {
        0
    } else {
        (generation + 1) as u64
    }
}

/// How often the service of a connection was dropped.
pub open spec fn generation_in(generations: Seq<(Seq<char>, u64)>, id: Seq<char>) -> u64 {
    match text_map::lookup(generations, id) {
        Some(generation) => generation,
        None => 0,
    }
}

/// The service that is open for a connection, where it was opened from the same
/// settings, secrets and tunnels.
pub open spec fn current(
    instances: Seq<(Seq<char>, CachedOperator)>,
    id: Seq<char>,
    fingerprint: Seq<u8>,
) -> Option<CachedOperator> {
    match text_map::lookup(instances, id) {
        Some(entry) => if entry.base_fingerprint@ == fingerprint {
            Some(entry)
        } else {
            None
        },
        None => None,
    }
}

/// The same services are open for all connections but one.
pub open spec fn same_but(
    before: Seq<(Seq<char>, CachedOperator)>,
    after: Seq<(Seq<char>, CachedOperator)>,
    id: Seq<char>,
) -> bool {
    forall|other: Seq<char>|
        other != id ==> #[trigger] text_map::lookup(after, other) == text_map::lookup(before, other)
}

/// All connections have the generations that they had, but one has the next.
pub open spec fn next_for(before: Seq<(Seq<char>, u64)>, after: Seq<(Seq<char>, u64)>, id: Seq<char>) -> bool {
    &&& generation_in(after, id) == next_generation(generation_in(before, id))
    &&& forall|other: Seq<char>|
        other != id ==> #[trigger] generation_in(after, other) == generation_in(before, other)
}

/// Who is in line to open a connection. The first has the turn.
pub open spec fn line_for(building: Seq<(Seq<char>, Vec<u64>)>, id: Seq<char>) -> Seq<u64> {
    match text_map::lookup(building, id) {
        Some(openers) => openers@,
        None => Seq::empty(),
    }
}

/// The opener has the turn to open a connection.
pub open spec fn is_turn_of(building: Seq<(Seq<char>, Vec<u64>)>, id: Seq<char>, opener: u64) -> bool {
    line_for(building, id).len() > 0 && line_for(building, id)[0] == opener
}

/// A line for a connection exists and is this one, and the others are as before.
pub open spec fn lined_up(
    before: Seq<(Seq<char>, Vec<u64>)>,
    after: Seq<(Seq<char>, Vec<u64>)>,
    id: Seq<char>,
    openers: Seq<u64>,
) -> bool {
    &&& text_map::lookup(after, id) matches Some(line) && line@ == openers
    &&& forall|other: Seq<char>|
        other != id ==> #[trigger] text_map::lookup(after, other) == text_map::lookup(before, other)
}

fn same_bytes(left: &[u8; 32], right: &[u8; 32]) -> (same: bool)
    ensures
        same == (left@ == right@),
{
    let mut i: usize = 0;
    while i < 32
        invariant
            i <= 32,
            forall|j: int| 0 <= j < i ==> left@[j] == right@[j],
        decreases 32 - i,
    {
        if left[i] != right[i] {
            return false;
        }
        i = i + 1;
    }
    assert(left@ =~= right@);
    true
}

fn has_expired(entry: &CachedOperator, now: u64) -> (over: bool)
    ensures
        over == is_expired(*entry, now),
{
    let idle: u128 = now.saturating_sub(entry.last_used) as u128;
    let limit: u128 = (entry.idle_timeout_secs as u128) * 1_000_000_000u128;
    idle >= limit
}

proof fn lemma_expired_come_from(entries: Seq<(Seq<char>, CachedOperator)>, now: u64)
    ensures
        forall|j: int|
            0 <= j < expired(entries, now).len() ==> exists|i: int|
                0 <= i < entries.len() && (#[trigger] entries[i]).0 == (#[trigger] expired(entries, now)[j]).0,
    decreases entries.len(),
{
    if entries.len() > 0 {
        let front = entries.drop_last();
        lemma_expired_come_from(front, now);
        assert forall|j: int| 0 <= j < expired(entries, now).len() implies exists|i: int|
            0 <= i < entries.len() && (#[trigger] entries[i]).0 == (#[trigger] expired(entries, now)[j]).0 by {
            if j < expired(front, now).len() {
                assert(expired(front, now)[j] == expired(entries, now)[j]);
                let i = choose|i: int| 0 <= i < front.len() && (#[trigger] front[i]).0 == expired(front, now)[j].0;
                assert(entries[i] == front[i]);
            } else {
                assert(entries[entries.len() - 1].0 == expired(entries, now)[j].0);
            }
        }
    }
}

/// What the registry found for a connection: a service that is open, or none.
/// Where there is none, the connection is due to be opened by one at a time:
/// whoever is to open it waits for its turn, prepares it again and looks again.
pub enum LookUp {
    Found(FileOperatorLease),
    Wait,
}

/// What the registry found for a connection whose turn to be opened came: a
/// service that was opened meanwhile, or one that is out of date and was
/// dropped, so that the tunnels of its connection are due to be taken down, or
/// none. Where the turn did not come yet, there is nothing to look for.
pub enum SecondLookUp {
    Found(FileOperatorLease),
    Stale { prepared: PreparedOperator, stale: SavedConnection },
    Missing { prepared: PreparedOperator },
    NotYet { prepared: PreparedOperator },
}

/// A connection is due to be prepared, after the tunnels of others were taken
/// down.
#[derive(Debug)]
#[non_exhaustive]
pub struct Opening {
    pub expired: Vec<(String, SavedConnection)>,
    pub due: ConnectionsLoad,
}

/// A lease on a service.
pub open spec fn lease_of(lease: FileOperatorLease, entry: CachedOperator) -> bool {
    lease.operator == entry.operator && lease.operation_timeout == entry.operation_timeout && lease.number@ == Some(
        entry.number@,
    )
}

/// The service with a new time of use.
pub open spec fn used(entry: CachedOperator, now: u64) -> CachedOperator {
    CachedOperator { last_used: now, ..entry }
}

/// What the second look for the service of a connection finds, and what becomes
/// of the registry.
pub open spec fn second_look_leads_to(
    before: FileOperatorRegistry,
    prepared: PreparedOperator,
    opener: u64,
    now: u64,
    found: SecondLookUp,
    after: FileOperatorRegistry,
) -> bool {
    let id = prepared.known.connection.id@;
    &&& after.opening_now() == before.opening_now()
    &&& after.numbered() == before.numbered()
    &&& if !is_turn_of(before.opening_now(), id, opener) {
        found == (SecondLookUp::NotYet { prepared }) && after == before
    } else {
        match text_map::lookup(before.open(), id) {
            Some(entry) => if entry.base_fingerprint@ == prepared.base_fingerprint@ {
                (found matches SecondLookUp::Found(lease) && lease_of(lease, entry)) && text_map::lookup(
                    after.open(),
                    id,
                ) == Some(used(entry, now)) && same_but(before.open(), after.open(), id) && after.dropped()
                    == before.dropped()
            } else {
                found == (SecondLookUp::Stale { prepared, stale: entry.connection }) && text_map::lookup(
                    after.open(),
                    id,
                ) is None && same_but(before.open(), after.open(), id) && next_for(
                    before.dropped(),
                    after.dropped(),
                    id,
                )
            },
            None => found == (SecondLookUp::Missing { prepared }) && after.open() == before.open() && after.dropped()
                == before.dropped(),
        }
    }
}

/// What becomes of a service that was opened, and of the registry.
pub open spec fn keep_leads_to(
    before: FileOperatorRegistry,
    ready: OperatorReady,
    now: u64,
    outcome: Result<FileOperatorLease, BuildFailure>,
    after: FileOperatorRegistry,
) -> bool {
    let prepared = ready.request.prepared;
    let id = ready.request.tunnel_id@;
    &&& after.dropped() == before.dropped()
    &&& after.opening_now() == before.opening_now()
    &&& if generation_in(before.dropped(), id) != ready.request.generation {
        (outcome matches Err(failure) && opening::gives_up(
            failure,
            ready.request.tunnel_id,
            prepared,
            models::manager_error(
                "connection_changed"@,
                "The file connection changed while it was being opened"@,
            ),
        )) && after.open() == before.open() && after.numbered() == before.numbered()
    } else {
        (outcome matches Ok(lease) && lease.operator == ready.operator && lease.operation_timeout
            == opening::timeout_of(prepared.known.connection.query_timeout_secs) && lease.number@ == Some(
            before.numbered(),
        ) && (text_map::lookup(after.open(), id) matches Some(entry) && lease_of(lease, entry) && entry.connection
            == prepared.known.connection && entry.base_fingerprint == prepared.base_fingerprint && entry.fingerprint@
            == digest::sha256(
            connection_fingerprint::full_content(
                prepared.base_fingerprint@,
                ready.request.runtime_endpoint,
            ),
        ) && entry.idle_timeout_secs == prepared.known.connection.idle_timeout_secs && entry.last_used == now))
            && same_but(before.open(), after.open(), id) && after.numbered() == before.numbered() + 1
    }
}

/// Every service that is open has a number that was given.
pub open spec fn is_numbered(registry: FileOperatorRegistry) -> bool {
    forall|id: Seq<char>|
        (#[trigger] text_map::lookup(registry.open(), id)) matches Some(entry) ==> entry.number@ < registry.numbered()
}

/// A later state of a registry: numbers are given on, and a service that is open
/// for a connection was open for it before, though it may have been used, or has
/// a new number.
pub open spec fn follows(before: FileOperatorRegistry, after: FileOperatorRegistry) -> bool {
    &&& before.numbered() <= after.numbered()
    &&& forall|id: Seq<char>|
        (#[trigger] text_map::lookup(after.open(), id)) matches Some(entry) ==> (before.numbered() <= entry.number@
            < after.numbered()) || (text_map::lookup(before.open(), id) matches Some(earlier) && entry == used(
            earlier,
            entry.last_used,
        ))
}

/// A lease that is handed out for a prepared connection: on a service that is
/// open for it and was opened from the same settings, secrets and tunnels, or on
/// one that was opened just now.
pub open spec fn hands_out(
    registry: FileOperatorRegistry,
    prepared: PreparedOperator,
    lease: FileOperatorLease,
) -> bool {
    ||| current(registry.open(), prepared.known.connection.id@, prepared.base_fingerprint@) matches Some(entry)
        && lease_of(lease, entry)
    ||| lease.number@ == Some(registry.numbered())
}

impl Default for FileOperatorRegistry {
    /// No services are open.
    fn default() -> (registry: FileOperatorRegistry)
        ensures
            registry.open().len() == 0,
            registry.dropped().len() == 0,
            registry.opening_now().len() == 0,
            registry.numbered() == 0,
            is_numbered(registry),
    {
        let registry = FileOperatorRegistry {
            instances: TextMap::new(),
            generations: TextMap::new(),
            build_locks: TextMap::new(),
            opened: Ghost(0),
        };
        proof {
            assert forall|id: Seq<char>| (#[trigger] text_map::lookup(registry.open(), id)) is None by {
                text_map::lemma_position(registry.open(), id);
            }
        }
        registry
    }
}

impl FileOperatorRegistry {
    /// The services that are open.
    pub closed spec fn open(&self) -> Seq<(Seq<char>, CachedOperator)> {
        self.instances.entries()
    }

    /// How often the services of connections were dropped.
    pub closed spec fn dropped(&self) -> Seq<(Seq<char>, u64)> {
        self.generations.entries()
    }

    /// Who is in line to open connections.
    pub closed spec fn opening_now(&self) -> Seq<(Seq<char>, Vec<u64>)> {
        self.build_locks.entries()
    }

    /// How many services were opened and kept so far: the number of the next.
    pub closed spec fn numbered(&self) -> nat {
        self.opened@
    }

    fn advance_generation(&mut self, id: &str)
        ensures
            final(self).open() == old(self).open(),
            final(self).opening_now() == old(self).opening_now(),
            final(self).numbered() == old(self).numbered(),
            next_for(old(self).dropped(), final(self).dropped(), id@),
    {
        let generation: u64 = match self.generations.get(id) {
            Some(found) => *found,
            None => 0,
        };
        let _earlier = self.generations.insert(id.to_owned(), generation.wrapping_add(1));
    }

    /// Drops the services that nobody used for as long as they may be idle: the
    /// tunnels of their connections are due to be taken down.
    pub fn evict_idle(&mut self, now: u64) -> (gone: Vec<(String, SavedConnection)>)
        ensures
            final(self).open() == kept(old(self).open(), now),
            Seq::new(gone@.len(), |i: int| (gone@[i].0@, gone@[i].1)) == expired(old(self).open(), now),
            forall|id: Seq<char>| #[trigger]
                generation_in(final(self).dropped(), id) == (if is_among(expired(old(self).open(), now), id) {
                    next_generation(generation_in(old(self).dropped(), id))
                } else {
                    generation_in(old(self).dropped(), id)
                }),
            final(self).opening_now() == old(self).opening_now(),
            final(self).numbered() == old(self).numbered(),
            follows(*old(self), *final(self)),
    {
        let ghost all = self.open();
        let ghost before = self.dropped();
        let ghost building = self.opening_now();
        let mut gone: Vec<(String, SavedConnection)> = Vec::new();
        let mut at: usize = 0;
        let mut seen: usize = 0;
        let total: usize = self.instances.len();
        assert(all.take(0) =~= Seq::<(Seq<char>, CachedOperator)>::empty());
        assert(kept(all.take(0), now) + all.skip(0) =~= all);
        assert(Seq::new(gone@.len(), |i: int| (gone@[i].0@, gone@[i].1)) =~= Seq::<
            (Seq<char>, SavedConnection),
        >::empty());
        while seen < total
            invariant
                total == all.len(),
                at <= seen <= total,
                text_map::keys_are_unique(all),
                at == kept(all.take(seen as int), now).len(),
                self.open() == kept(all.take(seen as int), now) + all.skip(seen as int),
                self.opening_now() == building,
                self.numbered() == old(self).numbered(),
                Seq::new(gone@.len(), |i: int| (gone@[i].0@, gone@[i].1)) == expired(all.take(seen as int), now),
                forall|id: Seq<char>| #[trigger]
                    generation_in(self.dropped(), id) == (if is_among(expired(all.take(seen as int), now), id) {
                        next_generation(generation_in(before, id))
                    } else {
                        generation_in(before, id)
                    }),
            decreases total - seen,
        {
            let ghost front = all.take(seen as int);
            let ghost next = all.take(seen + 1);
            let ghost known = expired(front, now);
            proof {
                assert(next.drop_last() =~= front);
                assert(next.last() == all[seen as int]);
                assert(self.open()[at as int] == all[seen as int]);
            }
            let over = has_expired(self.instances.value_at(at), now);
            if over {
                let id = self.instances.key_at(at).to_owned();
                let ghost opened = self.open();
                proof {
                    assert(self.instances.entries() == opened);
                }
                let _count: usize = self.instances.len();
                proof {
                    text_map::lemma_unique_position(opened, at as int);
                    assert(opened.remove(at as int) =~= kept(next, now) + all.skip(seen + 1));
                    lemma_expired_come_from(front, now);
                    if is_among(known, id@) {
                        let j = choose|j: int| 0 <= j < known.len() && (#[trigger] known[j]).0 == id@;
                        let i = choose|i: int| 0 <= i < front.len() && (#[trigger] front[i]).0 == known[j].0;
                        assert(front[i] == all[i]);
                        assert(all[i].0 != all[seen as int].0);
                    }
                }
                let ghost generations = self.dropped();
                let taken = self.instances.remove(id.as_str());
                assert(self.dropped() == generations);
                self.advance_generation(id.as_str());
                assert(next_for(generations, self.dropped(), id@));
                assert(!is_among(known, id@));
                let ghost name = id@;
                match taken {
                    Some(entry) => {
                        let ghost listed = Seq::new(gone@.len(), |i: int| (gone@[i].0@, gone@[i].1));
                        gone.push((id, entry.connection));
                        assert(Seq::new(gone@.len(), |i: int| (gone@[i].0@, gone@[i].1)) =~= listed.push(
                            (name, entry.connection),
                        ));
                    },
                    None => {},
                }
                proof {
                    let grown = expired(next, now);
                    assert(grown == known.push((all[seen as int].0, all[seen as int].1.connection)));
                    assert(is_among(grown, name)) by {
                        assert(grown[known.len() as int].0 == name);
                    }
                    assert forall|other: Seq<char>| #[trigger]
                        generation_in(self.dropped(), other) == (if is_among(grown, other) {
                            next_generation(generation_in(before, other))
                        } else {
                            generation_in(before, other)
                        }) by {
                        assert(generation_in(generations, other) == (if is_among(known, other) {
                            next_generation(generation_in(before, other))
                        } else {
                            generation_in(before, other)
                        }));
                        if is_among(known, other) {
                            let j = choose|j: int| 0 <= j < known.len() && (#[trigger] known[j]).0 == other;
                            assert(grown[j] == known[j]);
                        } else if other != name && is_among(grown, other) {
                            let j = choose|j: int| 0 <= j < grown.len() && (#[trigger] grown[j]).0 == other;
                            assert(known[j] == grown[j]);
                        }
                    }
                }
            } else {
                assert(kept(next, now) + all.skip(seen + 1) =~= self.open());
                at = at + 1;
            }
            seen = seen + 1;
        }
        assert(all.take(total as int) =~= all);
        assert(kept(all, now) + all.skip(total as int) =~= kept(all, now));
        proof {
            assert forall|id: Seq<char>|
                (#[trigger] text_map::lookup(self.open(), id)) is Some implies text_map::lookup(self.open(), id)
                == text_map::lookup(all, id) by {
                lemma_kept_was_there(all, now, id);
            }
        }
        gone
    }

    /// Begins to open a connection: services that nobody used are dropped first.
    pub fn get_or_build(&mut self, connection_id: &str, now: u64) -> (opening: Opening)
        ensures
            opening.due.connection_id@ == connection_id@,
            final(self).open() == kept(old(self).open(), now),
            Seq::new(opening.expired@.len(), |i: int| (opening.expired@[i].0@, opening.expired@[i].1)) == expired(
                old(self).open(),
                now,
            ),
            forall|id: Seq<char>| #[trigger]
                generation_in(final(self).dropped(), id) == (if is_among(expired(old(self).open(), now), id) {
                    next_generation(generation_in(old(self).dropped(), id))
                } else {
                    generation_in(old(self).dropped(), id)
                }),
            final(self).opening_now() == old(self).opening_now(),
            final(self).numbered() == old(self).numbered(),
            follows(*old(self), *final(self)),
    {
        let expired = self.evict_idle(now);
        Opening { expired, due: prepare_saved(connection_id) }
    }

    /// The service that is open for a connection, where it was opened from the
    /// same settings, secrets and tunnels. It was used now.
    pub fn cached(&mut self, connection_id: &str, fingerprint: &[u8; 32], now: u64) -> (found: Option<
        FileOperatorLease,
    >)
        ensures
            match current(old(self).open(), connection_id@, fingerprint@) {
                Some(entry) => found matches Some(lease) && lease_of(lease, entry) && text_map::lookup(
                    final(self).open(),
                    connection_id@,
                ) == Some(used(entry, now)) && same_but(old(self).open(), final(self).open(), connection_id@),
                None => found is None && final(self).open() == old(self).open(),
            },
            final(self).dropped() == old(self).dropped(),
            final(self).opening_now() == old(self).opening_now(),
            final(self).numbered() == old(self).numbered(),
            follows(*old(self), *final(self)),
    {
        let fits = match self.instances.get(connection_id) {
            Some(entry) => same_bytes(&entry.base_fingerprint, fingerprint),
            None => false,
        };
        if !fits {
            return None;
        }
        match self.instances.remove(connection_id) {
            Some(entry) => {
                let lease = FileOperatorLease {
                    operator: entry.operator.clone(),
                    operation_timeout: entry.operation_timeout,
                    number: Ghost(Some(entry.number@)),
                };
                let renewed = CachedOperator { last_used: now, ..entry };
                let _none = self.instances.insert(connection_id.to_owned(), renewed);
                Some(lease)
            },
            None => None,
        }
    }

    /// How often the service of a connection was dropped.
    pub fn generation(&self, connection_id: &str) -> (generation: u64)
        ensures
            generation == generation_in(self.dropped(), connection_id@),
    {
        match self.generations.get(connection_id) {
            Some(generation) => *generation,
            None => 0,
        }
    }

    /// Drops the service of a connection that was opened from other settings,
    /// secrets or tunnels: the tunnels of its connection are due to be taken
    /// down.
    pub fn remove_stale(&mut self, connection_id: &str, fingerprint: &[u8; 32]) -> (stale: Option<SavedConnection>)
        ensures
            match text_map::lookup(old(self).open(), connection_id@) {
                Some(entry) => if entry.base_fingerprint@ == fingerprint@ {
                    stale is None && final(self).open() == old(self).open() && final(self).dropped() == old(self).dropped()
                } else {
                    stale == Some(entry.connection) && text_map::lookup(final(self).open(), connection_id@) is None
                        && same_but(old(self).open(), final(self).open(), connection_id@) && next_for(
                        old(self).dropped(),
                        final(self).dropped(),
                        connection_id@,
                    )
                },
                None => stale is None && final(self).open() == old(self).open() && final(self).dropped() == old(self).dropped(),
            },
            final(self).opening_now() == old(self).opening_now(),
            final(self).numbered() == old(self).numbered(),
            follows(*old(self), *final(self)),
    {
        let fits = match self.instances.get(connection_id) {
            Some(entry) => same_bytes(&entry.base_fingerprint, fingerprint),
            None => true,
        };
        if fits {
            return None;
        }
        match self.instances.remove(connection_id) {
            Some(entry) => {
                self.advance_generation(connection_id);
                Some(entry.connection)
            },
            None => None,
        }
    }

    /// Looks for the service of a prepared connection. Where none fits, the
    /// opener is put at the end of the line of those who are to open the
    /// connection, until it calls [`FileOperatorRegistry::leave_build`].
    pub fn look_up(&mut self, prepared: &PreparedOperator, opener: u64, now: u64) -> (found: LookUp)
        ensures
            match current(old(self).open(), prepared.known.connection.id@, prepared.base_fingerprint@) {
                Some(entry) => found matches LookUp::Found(lease) && lease_of(lease, entry) && text_map::lookup(
                    final(self).open(),
                    prepared.known.connection.id@,
                ) == Some(used(entry, now)) && same_but(
                    old(self).open(),
                    final(self).open(),
                    prepared.known.connection.id@,
                ) && final(self).opening_now() == old(self).opening_now(),
                None => found is Wait && final(self).open() == old(self).open() && lined_up(
                    old(self).opening_now(),
                    final(self).opening_now(),
                    prepared.known.connection.id@,
                    line_for(old(self).opening_now(), prepared.known.connection.id@).push(opener),
                ),
            },
            final(self).dropped() == old(self).dropped(),
            final(self).numbered() == old(self).numbered(),
            follows(*old(self), *final(self)),
            found matches LookUp::Found(lease) ==> hands_out(*old(self), *prepared, lease),
    {
        let id = prepared.known.connection.id.as_str();
        match self.cached(id, &prepared.base_fingerprint, now) {
            Some(lease) => LookUp::Found(lease),
            None => {
                let mut openers: Vec<u64> = match self.build_locks.remove(id) {
                    Some(line) => line,
                    None => Vec::new(),
                };
                openers.push(opener);
                let _none = self.build_locks.insert(id.to_owned(), openers);
                LookUp::Wait
            },
        }
    }

    /// Says whether an opener has the turn to open a connection.
    pub fn has_turn(&self, connection_id: &str, opener: u64) -> (turn: bool)
        ensures
            turn == is_turn_of(self.opening_now(), connection_id@, opener),
    {
        match self.build_locks.get(connection_id) {
            Some(openers) => openers.len() > 0 && openers[0] == opener,
            None => false,
        }
    }

    /// Looks again for the service of a connection, once the opener has the turn
    /// to open it.
    pub fn look_up_again(&mut self, prepared: PreparedOperator, opener: u64, now: u64) -> (found: SecondLookUp)
        ensures
            second_look_leads_to(*old(self), prepared, opener, now, found, *final(self)),
            follows(*old(self), *final(self)),
            found matches SecondLookUp::Found(lease) ==> hands_out(*old(self), prepared, lease),
    {
        if !self.has_turn(prepared.known.connection.id.as_str(), opener) {
            return SecondLookUp::NotYet { prepared };
        }
        match self.cached(prepared.known.connection.id.as_str(), &prepared.base_fingerprint, now) {
            Some(lease) => SecondLookUp::Found(lease),
            None => match self.remove_stale(prepared.known.connection.id.as_str(), &prepared.base_fingerprint) {
                Some(stale) => SecondLookUp::Stale { prepared, stale },
                None => SecondLookUp::Missing { prepared },
            },
        }
    }

    /// Begins to open a prepared connection, under its own id and in its present
    /// generation.
    pub fn begin(&self, prepared: PreparedOperator) -> (step: EndpointStep)
        ensures
            ({
                let generation = generation_in(self.dropped(), prepared.known.connection.id@);
                if prepared.known.tunnelled {
                    step matches EndpointStep::Ask(due) && due.tunnel_id@ == prepared.known.connection.id@
                        && due.prepared == prepared && due.generation == generation
                } else {
                    step matches EndpointStep::Build(due) && due.tunnel_id@ == prepared.known.connection.id@
                        && due.prepared == prepared && due.generation == generation && due.runtime_endpoint is None
                }
            }),
    {
        let generation: u64 = self.generation(prepared.known.connection.id.as_str());
        runtime_endpoint(prepared.known.connection.id.clone(), prepared, generation)
    }

    /// Keeps a service that was opened, unless its connection was dropped
    /// meanwhile.
    pub fn keep(&mut self, ready: OperatorReady, now: u64) -> (outcome: Result<FileOperatorLease, BuildFailure>)
        ensures
            keep_leads_to(*old(self), ready, now, outcome, *final(self)),
            follows(*old(self), *final(self)),
            outcome matches Ok(lease) ==> hands_out(*old(self), ready.request.prepared, lease),
    {
        let generation: u64 = self.generation(ready.request.tunnel_id.as_str());
        if generation != ready.request.generation {
            return Err(
                BuildFailure {
                    tunnel_id: ready.request.tunnel_id,
                    connection: ready.request.prepared.known.connection,
                    error: FileManagerError::new(
                        "connection_changed",
                        "The file connection changed while it was being opened",
                    ),
                },
            );
        }
        let tunnel = match &ready.request.runtime_endpoint {
            Some(entry) => Some(entry),
            None => None,
        };
        let fingerprint = full_fingerprint(ready.request.prepared.base_fingerprint, tunnel);
        let timeout = operation_timeout(&ready.request.prepared.known.connection);
        let lease = FileOperatorLease {
            operator: ready.operator.clone(),
            operation_timeout: timeout,
            number: Ghost(Some(self.opened@)),
        };
        let idle_timeout_secs: u64 = ready.request.prepared.known.connection.idle_timeout_secs;
        let entry = CachedOperator {
            connection: ready.request.prepared.known.connection,
            base_fingerprint: ready.request.prepared.base_fingerprint,
            fingerprint,
            operator: ready.operator,
            operation_timeout: timeout,
            idle_timeout_secs,
            last_used: now,
            number: Ghost(self.opened@),
        };
        self.opened = Ghost(self.opened@ + 1);
        let _earlier = self.instances.insert(ready.request.tunnel_id, entry);
        Ok(lease)
    }

    /// The opener leaves the line of those who are to open a connection.
    pub fn leave_build(&mut self, connection_id: &str, opener: u64)
        ensures
            final(self).open() == old(self).open(),
            final(self).dropped() == old(self).dropped(),
            final(self).numbered() == old(self).numbered(),
            match text_map::lookup(old(self).opening_now(), connection_id@) {
                Some(openers) => lined_up(
                    old(self).opening_now(),
                    final(self).opening_now(),
                    connection_id@,
                    line::without(openers@, opener),
                ),
                None => final(self).opening_now() == old(self).opening_now(),
            },
            follows(*old(self), *final(self)),
    {
        match self.build_locks.remove(connection_id) {
            Some(openers) => {
                let rest = remaining(&openers, opener);
                let _none = self.build_locks.insert(connection_id.to_owned(), rest);
            },
            None => {},
        }
    }

    /// Drops the service of a connection, and refuses what is being opened for
    /// it. The tunnels of the connection are due to be taken down: those of the
    /// service where one was open, and otherwise whatever stands under the id.
    pub fn drop_connection(&mut self, connection_id: &str) -> (dropped: Option<SavedConnection>)
        ensures
            dropped == (match text_map::lookup(old(self).open(), connection_id@) {
                Some(entry) => Some(entry.connection),
                None => None,
            }),
            text_map::lookup(final(self).open(), connection_id@) is None,
            same_but(old(self).open(), final(self).open(), connection_id@),
            next_for(old(self).dropped(), final(self).dropped(), connection_id@),
            final(self).opening_now() == old(self).opening_now(),
            final(self).numbered() == old(self).numbered(),
            follows(*old(self), *final(self)),
    {
        let removed = self.instances.remove(connection_id);
        self.advance_generation(connection_id);
        match removed {
            Some(entry) => Some(entry.connection),
            None => None,
        }
    }

    /// Forgets that a connection can be opened by one at a time, where nobody is
    /// opening it.
    pub fn remove_unused_build_lock(&mut self, connection_id: &str)
        ensures
            final(self).open() == old(self).open(),
            final(self).dropped() == old(self).dropped(),
            match text_map::lookup(old(self).opening_now(), connection_id@) {
                Some(openers) => if openers@.len() == 0 {
                    text_map::lookup(final(self).opening_now(), connection_id@) is None && forall|other: Seq<char>|
                        other != connection_id@ ==> #[trigger] text_map::lookup(final(self).opening_now(), other)
                            == text_map::lookup(old(self).opening_now(), other)
                } else {
                    final(self).opening_now() == old(self).opening_now()
                },
                None => final(self).opening_now() == old(self).opening_now(),
            },
            final(self).numbered() == old(self).numbered(),
            follows(*old(self), *final(self)),
    {
        let unused = match self.build_locks.get(connection_id) {
            Some(openers) => openers.len() == 0,
            None => false,
        };
        if unused {
            let _none = self.build_locks.remove(connection_id);
        }
    }

    /// Says whether a connection can be opened by one at a time.
    pub fn has_build_lock(&self, connection_id: &str) -> (found: bool)
        ensures
            found == (text_map::lookup(self.opening_now(), connection_id@) is Some),
    {
        self.build_locks.contains(connection_id)
    }
}

/// A service that is open is shared: whoever prepares its connection from the
/// same settings, secrets and tunnels is handed it, and so is whoever does so
/// after it was used.
pub proof fn open_services_are_shared(
    open: Seq<(Seq<char>, CachedOperator)>,
    later: Seq<(Seq<char>, CachedOperator)>,
    id: Seq<char>,
    entry: CachedOperator,
    now: u64,
)
    requires
        text_map::lookup(open, id) == Some(entry),
        text_map::lookup(later, id) == Some(used(entry, now)),
    ensures
        current(open, id, entry.base_fingerprint@) == Some(entry),
        current(later, id, entry.base_fingerprint@) matches Some(found) && found.operator == entry.operator,
{
}

/// A service that was being opened when its connection was dropped is not kept:
/// the generation that it began in is no longer the connection's.
pub proof fn dropped_connections_keep_no_earlier_service(
    before: Seq<(Seq<char>, u64)>,
    after: Seq<(Seq<char>, u64)>,
    id: Seq<char>,
)
    requires
        next_for(before, after, id),
    ensures
        generation_in(after, id) != generation_in(before, id),
{
}

proof fn lemma_kept_was_there(entries: Seq<(Seq<char>, CachedOperator)>, now: u64, id: Seq<char>)
    requires
        text_map::keys_are_unique(entries),
        text_map::lookup(kept(entries, now), id) is Some,
    ensures
        text_map::lookup(entries, id) == text_map::lookup(kept(entries, now), id),
    decreases entries.len(),
{
    let left = kept(entries, now);
    text_map::lemma_position(left, id);
    if entries.len() > 0 {
        let front = entries.drop_last();
        if left.last() == entries.last() && !is_expired(entries.last().1, now) && entries.last().0 == id {
            text_map::lemma_unique_position(entries, entries.len() - 1);
        } else {
            assert forall|i: int, j: int| 0 <= i < j < front.len() implies (#[trigger] front[i]).0 != (
            #[trigger] front[j]).0 by {
                assert(front[i] == entries[i]);
                assert(front[j] == entries[j]);
            }
            if !is_expired(entries.last().1, now) {
                assert(left.drop_last() =~= kept(front, now));
            }
            assert(text_map::lookup(kept(front, now), id) == text_map::lookup(left, id));
            lemma_kept_was_there(front, now, id);
            text_map::lemma_position(front, id);
            let at = text_map::position(front, id);
            assert(entries[at] == front[at]);
            text_map::lemma_unique_position(entries, at);
        }
    }
}

proof fn lemma_kept_members(entries: Seq<(Seq<char>, CachedOperator)>, now: u64)
    ensures
        forall|i: int|
            0 <= i < kept(entries, now).len() ==> !is_expired((#[trigger] kept(entries, now)[i]).1, now),
    decreases entries.len(),
{
    if entries.len() > 0 {
        let front = kept(entries.drop_last(), now);
        lemma_kept_members(entries.drop_last(), now);
        assert forall|i: int| 0 <= i < kept(entries, now).len() implies !is_expired(
            (#[trigger] kept(entries, now)[i]).1,
            now,
        ) by {
            if i < front.len() {
                assert(front[i] == kept(entries, now)[i]);
            }
        }
    }
}

/// No service is handed out that nobody used for as long as it may be idle: none
/// is left once the idle ones were dropped. A service that may not be idle at
/// all is never found again.
pub proof fn idle_services_are_not_found(entries: Seq<(Seq<char>, CachedOperator)>, now: u64, id: Seq<char>)
    ensures
        text_map::lookup(kept(entries, now), id) matches Some(entry) ==> !is_expired(entry, now)
            && entry.idle_timeout_secs > 0,
{
    lemma_kept_members(entries, now);
    text_map::lemma_position(kept(entries, now), id);
}

/// A state of a registry that follows one in order is in order, and follows all
/// that it followed.
pub proof fn following_goes_on(first: FileOperatorRegistry, second: FileOperatorRegistry, third: FileOperatorRegistry)
    requires
        is_numbered(first),
        follows(first, second),
        follows(second, third),
    ensures
        is_numbered(second),
        follows(first, third),
{
    assert forall|id: Seq<char>| (#[trigger] text_map::lookup(second.open(), id)) is Some implies text_map::lookup(
        second.open(),
        id,
    )->0.number@ < second.numbered() by {
        if let Some(earlier) = text_map::lookup(first.open(), id) {
            assert(earlier.number@ < first.numbered());
        }
    }
    assert forall|id: Seq<char>| (#[trigger] text_map::lookup(third.open(), id)) is Some implies ({
        let number = text_map::lookup(third.open(), id)->0.number@;
        (first.numbered() <= number < third.numbered()) || (text_map::lookup(first.open(), id) matches Some(earlier)
            && text_map::lookup(third.open(), id)->0 == used(earlier, text_map::lookup(third.open(), id)->0.last_used))
    }) by {
        if let Some(between) = text_map::lookup(second.open(), id) {
            assert(between.number@ < second.numbered());
        }
    }
}

/// A service that is no longer open for a connection, such as one that was
/// dropped, is never handed out for it again, whatever the registry does later:
/// whoever is handed a service then is handed another one.
pub proof fn gone_services_do_not_come_back(
    at_first: FileOperatorRegistry,
    entry: CachedOperator,
    without: FileOperatorRegistry,
    later: FileOperatorRegistry,
    prepared: PreparedOperator,
    lease: FileOperatorLease,
)
    requires
        is_numbered(at_first),
        text_map::lookup(at_first.open(), prepared.known.connection.id@) == Some(entry),
        follows(at_first, without),
        text_map::lookup(without.open(), prepared.known.connection.id@) is None,
        follows(without, later),
        hands_out(later, prepared, lease),
    ensures
        lease.number@ != Some(entry.number@),
{
    assert(entry.number@ < at_first.numbered());
    assert(text_map::lookup(later.open(), prepared.known.connection.id@) is Some || lease.number@ == Some(
        later.numbered(),
    ));
}

/// A service that was opened from what has another digest is never handed out
/// for a connection, whatever the registry did meanwhile: neither a first look
/// nor a second one finds it, and a service that is opened instead is another.
pub proof fn changed_connections_get_another_service(
    at_first: FileOperatorRegistry,
    entry: CachedOperator,
    later: FileOperatorRegistry,
    prepared: PreparedOperator,
    lease: FileOperatorLease,
)
    requires
        is_numbered(at_first),
        text_map::lookup(at_first.open(), prepared.known.connection.id@) == Some(entry),
        entry.base_fingerprint@ != prepared.base_fingerprint@,
        follows(at_first, later),
        hands_out(later, prepared, lease),
    ensures
        lease.number@ != Some(entry.number@),
{
    assert(entry.number@ < at_first.numbered());
    assert(text_map::lookup(later.open(), prepared.known.connection.id@) is Some || lease.number@ == Some(
        later.numbered(),
    ));
}

/// Whoever was handed the service of a connection is handed another one once a
/// setting, a tunnel or a secret of the connection changed, unless what is
/// digested of the two, which is never the same, has one SHA-256 digest.
pub proof fn changed_settings_get_another_service(
    at_first: FileOperatorRegistry,
    entry: CachedOperator,
    known: KnownConnection,
    encodings: ConnectionEncodings,
    later: FileOperatorRegistry,
    prepared: PreparedOperator,
    changed: ConnectionEncodings,
    lease: FileOperatorLease,
)
    requires
        is_numbered(at_first),
        text_map::lookup(at_first.open(), prepared.known.connection.id@) == Some(entry),
        entry.base_fingerprint@ == digest::sha256(opening::digested(known, encodings)),
        prepared.base_fingerprint@ == digest::sha256(opening::digested(prepared.known, changed)),
        connection_fingerprint::secrets_fit(known.secrets@),
        connection_fingerprint::secrets_fit(prepared.known.secrets@),
        opening::is_changed(known, encodings, prepared.known, changed),
        follows(at_first, later),
        hands_out(later, prepared, lease),
    ensures
        opening::digested(known, encodings) != opening::digested(prepared.known, changed),
        lease.number@ != Some(entry.number@) || digest::sha256(opening::digested(known, encodings))
            == digest::sha256(opening::digested(prepared.known, changed)),
{
    if opening::digested(known, encodings) == opening::digested(prepared.known, changed) {
        assert(encodings.connection.len() <= u64::MAX && changed.connection.len() <= u64::MAX);
        assert(encodings.config.len() <= u64::MAX && changed.config.len() <= u64::MAX);
        assert(encodings.layers.len() <= u64::MAX && changed.layers.len() <= u64::MAX);
        connection_fingerprint::digested_parts_are_kept_apart(
            encodings.connection@,
            encodings.config@,
            encodings.layers@,
            known.secrets@,
            changed.connection@,
            changed.config@,
            changed.layers@,
            prepared.known.secrets@,
        );
    }
    if entry.base_fingerprint@ != prepared.base_fingerprint@ {
        changed_connections_get_another_service(at_first, entry, later, prepared, lease);
    }
}

/// A service that was idle for as long as it may be is not handed out again:
/// once the idle ones were dropped, whoever opens its connection is handed
/// another one. One that may not be idle at all is always dropped.
pub proof fn idle_connections_get_another_service(
    at_first: FileOperatorRegistry,
    entry: CachedOperator,
    now: u64,
    without: FileOperatorRegistry,
    later: FileOperatorRegistry,
    prepared: PreparedOperator,
    lease: FileOperatorLease,
)
    requires
        is_numbered(at_first),
        text_map::keys_are_unique(at_first.open()),
        text_map::lookup(at_first.open(), prepared.known.connection.id@) == Some(entry),
        is_expired(entry, now) || entry.idle_timeout_secs == 0,
        without.open() == kept(at_first.open(), now),
        follows(at_first, without),
        follows(without, later),
        hands_out(later, prepared, lease),
    ensures
        lease.number@ != Some(entry.number@),
{
    let id = prepared.known.connection.id@;
    idle_services_are_not_found(at_first.open(), now, id);
    if text_map::lookup(without.open(), id) is Some {
        lemma_kept_was_there(at_first.open(), now, id);
    }
    gone_services_do_not_come_back(at_first, entry, without, later, prepared, lease);
}

/// Of those who are to open a connection, one has the turn, and keeps it until
/// it leaves the line: others who come or leave do not change that.
pub proof fn connections_are_opened_one_at_a_time(
    before: Seq<(Seq<char>, Vec<u64>)>,
    after: Seq<(Seq<char>, Vec<u64>)>,
    id: Seq<char>,
    opener: u64,
    other: u64,
)
    requires
        is_turn_of(before, id, opener),
        other != opener,
        lined_up(before, after, id, line_for(before, id).push(other)) || lined_up(
            before,
            after,
            id,
            line::without(line_for(before, id), other),
        ),
    ensures
        is_turn_of(after, id, opener),
        !is_turn_of(before, id, other),
        !is_turn_of(after, id, other),
{
    line::lemma_first_stays(line_for(before, id), other);
}

/// The same service is open for a connection, though it may have been used.
pub open spec fn keeps_open(before: FileOperatorRegistry, after: FileOperatorRegistry, id: Seq<char>) -> bool {
    &&& after.numbered() == before.numbered()
    &&& match (text_map::lookup(before.open(), id), text_map::lookup(after.open(), id)) {
        (Some(earlier), Some(later)) => later == used(earlier, later.last_used),
        _ => false,
    }
}

/// A user of a connection whose turn came: how the registry was then, who it is,
/// what it found, and how it left the registry.
pub struct UserTurn {
    pub registry: FileOperatorRegistry,
    pub prepared: PreparedOperator,
    pub opener: u64,
    pub now: u64,
    pub found: SecondLookUp,
    pub left: FileOperatorRegistry,
}

/// One user after the other has the turn at a connection that does not change,
/// while its service is not dropped between the turns.
pub open spec fn take_turns(
    kept: FileOperatorRegistry,
    id: Seq<char>,
    base_fingerprint: Seq<u8>,
    turns: Seq<UserTurn>,
) -> bool {
    forall|i: int|
        0 <= i < turns.len() ==> {
            let turn = #[trigger] turns[i];
            &&& turn.prepared.known.connection.id@ == id
            &&& turn.prepared.base_fingerprint@ == base_fingerprint
            &&& is_turn_of(turn.registry.opening_now(), id, turn.opener)
            &&& second_look_leads_to(
                turn.registry,
                turn.prepared,
                turn.opener,
                turn.now,
                turn.found,
                turn.left,
            )
            &&& keeps_open(
                if i == 0 {
                    kept
                } else {
                    turns[i - 1].left
                },
                turn.registry,
                id,
            )
        }
}

proof fn lemma_service_stays(
    kept: FileOperatorRegistry,
    id: Seq<char>,
    entry: CachedOperator,
    turns: Seq<UserTurn>,
    at: int,
)
    requires
        text_map::lookup(kept.open(), id) == Some(entry),
        take_turns(kept, id, entry.base_fingerprint@, turns),
        0 <= at < turns.len(),
    ensures
        turns[at].found matches SecondLookUp::Found(shared) && lease_of(shared, entry),
        turns[at].left.numbered() == kept.numbered(),
        text_map::lookup(turns[at].left.open(), id) matches Some(later) && later == used(entry, later.last_used),
    decreases at,
{
    let turn = turns[at];
    if at > 0 {
        lemma_service_stays(kept, id, entry, turns, at - 1);
        assert(keeps_open(turns[at - 1].left, turn.registry, id));
    } else {
        assert(keeps_open(kept, turn.registry, id));
    }
    let standing = text_map::lookup(turn.registry.open(), id)->0;
    assert(standing.base_fingerprint@ == turn.prepared.base_fingerprint@);
    assert(text_map::lookup(turn.left.open(), id) == Some(used(standing, turn.now)));
    assert(used(standing, turn.now) == used(entry, turn.now));
}

/// The first users of a connection share one service: the first whose turn came
/// opened and kept it, and every other whose turn comes later is handed the same
/// one, while the connection does not change and nothing is dropped. No second
/// service is opened.
pub proof fn first_users_share_one_service(
    before: FileOperatorRegistry,
    ready: OperatorReady,
    kept_at: u64,
    lease: FileOperatorLease,
    kept: FileOperatorRegistry,
    turns: Seq<UserTurn>,
)
    requires
        keep_leads_to(before, ready, kept_at, Ok(lease), kept),
        take_turns(kept, ready.request.tunnel_id@, ready.request.prepared.base_fingerprint@, turns),
    ensures
        forall|i: int|
            0 <= i < turns.len() ==> ((#[trigger] turns[i]).found matches SecondLookUp::Found(shared)
                && shared.operator == lease.operator && shared.number@ == lease.number@ && shared.operation_timeout
                == lease.operation_timeout) && turns[i].left.numbered() == before.numbered() + 1,
{
    let id = ready.request.tunnel_id@;
    let entry = text_map::lookup(kept.open(), id)->0;
    assert forall|i: int| 0 <= i < turns.len() implies ((#[trigger] turns[i]).found matches SecondLookUp::Found(
        shared,
    ) && shared.operator == lease.operator && shared.number@ == lease.number@ && shared.operation_timeout
        == lease.operation_timeout) && turns[i].left.numbered() == before.numbered() + 1 by {
        lemma_service_stays(kept, id, entry, turns, i);
    }
}

/// A service may be idle for as many seconds as its connection says, counted from
/// when it was last used; a clock that went back counts as no time.
pub proof fn services_may_be_idle_for_their_time(entry: CachedOperator, now: u64)
    ensures
        now >= entry.last_used ==> (is_expired(entry, now) <==> now - entry.last_used >= entry.idle_timeout_secs
            * 1_000_000_000),
        now < entry.last_used ==> (is_expired(entry, now) <==> entry.idle_timeout_secs == 0),
        is_expired(used(entry, now), now) <==> entry.idle_timeout_secs == 0,
{
}

/// Dropping the idle services leaves the others as they are and in their order, and
/// lists the connections of those that it drops.
pub proof fn only_idle_services_are_dropped(
    first: Seq<(Seq<char>, CachedOperator)>,
    second: Seq<(Seq<char>, CachedOperator)>,
    id: Seq<char>,
    entry: CachedOperator,
    now: u64,
)
    ensures
        kept(first + second, now) == kept(first, now) + kept(second, now),
        expired(first + second, now) == expired(first, now) + expired(second, now),
        is_expired(entry, now) ==> kept(seq![(id, entry)], now).len() == 0 && expired(seq![(id, entry)], now) == seq![
            (id, entry.connection),
        ],
        !is_expired(entry, now) ==> kept(seq![(id, entry)], now) == seq![(id, entry)] && expired(
            seq![(id, entry)],
            now,
        ).len() == 0,
    decreases second.len(),
{
    reveal_with_fuel(kept, 2);
    reveal_with_fuel(expired, 2);
    let single = seq![(id, entry)];
    assert(single.drop_last() =~= Seq::<(Seq<char>, CachedOperator)>::empty());
    assert(single.last() == (id, entry));
    if second.len() > 0 {
        only_idle_services_are_dropped(first, second.drop_last(), id, entry, now);
        assert((first + second).drop_last() =~= first + second.drop_last());
        assert(kept(first + second, now) =~= kept(first, now) + kept(second, now));
        assert(expired(first + second, now) =~= expired(first, now) + expired(second, now));
    } else {
        assert(first + second =~= first);
        assert(kept(first, now) + kept(second, now) =~= kept(first, now));
        assert(expired(first, now) + expired(second, now) =~= expired(first, now));
    }
}

/// A lease is on the service that it was made of, with the limit that operations on
/// it have. Using a service changes when it was last used, and nothing else.
pub proof fn leases_are_on_their_service(lease: FileOperatorLease, entry: CachedOperator, now: u64)
    requires
        lease_of(lease, entry),
    ensures
        lease.operator == entry.operator,
        lease.operation_timeout == entry.operation_timeout,
        lease.number@ == Some(entry.number@),
        used(entry, now).last_used == now,
        used(entry, now).operator == entry.operator && used(entry, now).operation_timeout == entry.operation_timeout
            && used(entry, now).connection == entry.connection && used(entry, now).base_fingerprint
            == entry.base_fingerprint && used(entry, now).fingerprint == entry.fingerprint && used(
            entry,
            now,
        ).idle_timeout_secs == entry.idle_timeout_secs && used(entry, now).number == entry.number,
{
}

/// A service is found for a connection exactly where it is open for it and was
/// opened from what has the same digest.
pub proof fn services_are_found_by_their_fingerprint(
    instances: Seq<(Seq<char>, CachedOperator)>,
    id: Seq<char>,
    fingerprint: Seq<u8>,
    entry: CachedOperator,
)
    ensures
        current(instances, id, fingerprint) == Some(entry) <==> text_map::lookup(instances, id) == Some(entry)
            && entry.base_fingerprint@ == fingerprint,
{
}

/// A connection whose service is dropped is in another generation from then on, and
/// one that was never dropped is in the first.
pub proof fn generations_go_on(generations: Seq<(Seq<char>, u64)>, id: Seq<char>, generation: u64)
    ensures
        next_generation(generation) != generation,
        generation < u64::MAX ==> next_generation(generation) == generation + 1,
        next_generation(u64::MAX) == 0,
        text_map::lookup(generations, id) is None ==> generation_in(generations, id) == 0,
        text_map::lookup(generations, id) == Some(generation) ==> generation_in(generations, id) == generation,
{
}

/// Those who are to open a connection stand in its line, where the first has the
/// turn, and in no other.
pub proof fn openers_stand_in_the_line_of_their_connection(
    before: Seq<(Seq<char>, Vec<u64>)>,
    after: Seq<(Seq<char>, Vec<u64>)>,
    id: Seq<char>,
    openers: Seq<u64>,
    other: Seq<char>,
)
    requires
        lined_up(before, after, id, openers),
    ensures
        text_map::lookup(after, id) is Some && text_map::lookup(after, id)->0@ == openers,
        line_for(after, id) == openers,
        openers.len() > 0 ==> is_turn_of(after, id, openers[0]),
        forall|opener: u64| openers.len() == 0 || opener != openers[0] ==> !#[trigger] is_turn_of(after, id, opener),
        other != id ==> text_map::lookup(after, other) == text_map::lookup(before, other) && line_for(after, other)
            == line_for(before, other),
{
}

/// Whoever has the turn finds the service where it is open and was opened from the
/// same; one that was opened from something else is dropped before another is
/// opened. Whoever has no turn changes nothing.
pub proof fn second_looks_find_or_drop(
    before: FileOperatorRegistry,
    prepared: PreparedOperator,
    opener: u64,
    now: u64,
    found: SecondLookUp,
    after: FileOperatorRegistry,
)
    requires
        second_look_leads_to(before, prepared, opener, now, found, after),
    ensures
        found is NotYet <==> !is_turn_of(before.opening_now(), prepared.known.connection.id@, opener),
        found is NotYet ==> after == before,
        found matches SecondLookUp::Found(lease) ==> (text_map::lookup(before.open(), prepared.known.connection.id@) matches Some(
            entry,
        ) && entry.base_fingerprint@ == prepared.base_fingerprint@ && lease.operator == entry.operator
            && lease.operation_timeout == entry.operation_timeout && (text_map::lookup(
            after.open(),
            prepared.known.connection.id@,
        ) matches Some(again) && again.operator == entry.operator && again.last_used == now)) && after.dropped()
            == before.dropped(),
        found matches SecondLookUp::Stale { prepared: same, stale } ==> same == prepared && (text_map::lookup(
            before.open(),
            prepared.known.connection.id@,
        ) matches Some(entry) && entry.base_fingerprint@ != prepared.base_fingerprint@ && stale == entry.connection)
            && text_map::lookup(after.open(), prepared.known.connection.id@) is None && generation_in(
            after.dropped(),
            prepared.known.connection.id@,
        ) != generation_in(before.dropped(), prepared.known.connection.id@),
        found matches SecondLookUp::Missing { prepared: same } ==> same == prepared && text_map::lookup(
            before.open(),
            prepared.known.connection.id@,
        ) is None && after.open() == before.open() && after.dropped() == before.dropped(),
        after.opening_now() == before.opening_now(),
{
}

/// A service that was opened is kept for its connection, with what the connection
/// says of its limits, exactly where the connection was not dropped meanwhile.
pub proof fn opened_services_are_kept_for_their_connection(
    before: FileOperatorRegistry,
    ready: OperatorReady,
    now: u64,
    outcome: Result<FileOperatorLease, BuildFailure>,
    after: FileOperatorRegistry,
)
    requires
        keep_leads_to(before, ready, now, outcome, after),
    ensures
        outcome is Ok <==> generation_in(before.dropped(), ready.request.tunnel_id@) == ready.request.generation,
        outcome matches Ok(lease) ==> lease.operator == ready.operator && lease.operation_timeout == (
        if ready.request.prepared.known.connection.query_timeout_secs > 0 {
            Some(ready.request.prepared.known.connection.query_timeout_secs)
        } else {
            None
        }) && (text_map::lookup(after.open(), ready.request.tunnel_id@) matches Some(entry) && entry.operator
            == ready.operator && entry.operation_timeout == lease.operation_timeout && entry.connection
            == ready.request.prepared.known.connection && entry.base_fingerprint@
            == ready.request.prepared.base_fingerprint@ && entry.idle_timeout_secs
            == ready.request.prepared.known.connection.idle_timeout_secs && entry.last_used == now),
        outcome matches Err(failure) ==> failure.tunnel_id == ready.request.tunnel_id && failure.connection
            == ready.request.prepared.known.connection && failure.error.code@ == "connection_changed"@
            && failure.error.message@ == "The file connection changed while it was being opened"@ && after.open()
            == before.open(),
        forall|other: Seq<char>|
            other != ready.request.tunnel_id@ ==> #[trigger] text_map::lookup(after.open(), other) == text_map::lookup(
                before.open(),
                other,
            ),
        after.dropped() == before.dropped() && after.opening_now() == before.opening_now(),
{
}

/// Dropping one connection leaves the generations of all others as they are, and a
/// connection is listed exactly where one with its id is.
pub proof fn other_connections_stay_in_their_generation(
    before: Seq<(Seq<char>, u64)>,
    after: Seq<(Seq<char>, u64)>,
    id: Seq<char>,
    other: Seq<char>,
    connections: Seq<(Seq<char>, SavedConnection)>,
    at: int,
)
    ensures
        next_for(before, after, id) && other != id ==> generation_in(after, other) == generation_in(before, other),
        0 <= at < connections.len() ==> is_among(connections, connections[at].0),
        is_among(connections, other) ==> exists|i: int| 0 <= i < connections.len() && #[trigger] connections[i].0 == other,
{
    if 0 <= at < connections.len() {
        assert(connections[at].0 == connections[at].0);
    }
}

} // verus!
