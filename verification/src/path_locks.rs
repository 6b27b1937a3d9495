//! Which remote paths a copy or rename locks, and which locks exist.
use crate::fingerprint;
use crate::line;
use crate::line::is_among;
use crate::line::remaining;
use crate::text;
use crate::text::characters;
use crate::text::decimal;
use crate::text::joined4;
use crate::text::same_text;
use crate::text_map;
use crate::text_map::TextMap;
use vstd::prelude::*;

verus! {

/// A text stands before another in the order of their characters.
pub open spec fn precedes(left: Seq<char>, right: Seq<char>) -> bool
    decreases left.len(),
{
    if right.len() == 0 {
        false
    } else if left.len() == 0 {
        true
    } else if left[0] == right[0] {
        precedes(left.drop_first(), right.drop_first())
    } else {
        left[0] < right[0]
    }
}

/// Of two different texts one stands before the other, and not the other way.
pub proof fn lemma_order_is_total(left: Seq<char>, right: Seq<char>)
    ensures
        !(precedes(left, right) && precedes(right, left)),
        precedes(left, right) || precedes(right, left) || left == right,
        left == right ==> !precedes(left, right),
    decreases left.len(),
{
    if left.len() == 0 {
        if right.len() == 0 {
            assert(left =~= right);
        }
    } else if right.len() > 0 && left[0] == right[0] {
        lemma_order_is_total(left.drop_first(), right.drop_first());
        if left.drop_first() == right.drop_first() {
            assert(left =~= seq![left[0]] + left.drop_first());
            assert(right =~= seq![right[0]] + right.drop_first());
        }
    }
}

/// A text that stands before one that stands before a third stands before it.
proof fn lemma_order_is_transitive(first: Seq<char>, second: Seq<char>, third: Seq<char>)
    requires
        precedes(first, second),
        precedes(second, third),
    ensures
        precedes(first, third),
    decreases first.len(),
{
    if first.len() > 0 && first[0] == second[0] && second[0] == third[0] {
        lemma_order_is_transitive(first.drop_first(), second.drop_first(), third.drop_first());
    }
}

fn stands_before(left: &Vec<char>, right: &Vec<char>) -> (before: bool)
    ensures
        before == precedes(left@, right@),
{
    let mut i: usize = 0;
    assert(left@.skip(0) =~= left@);
    assert(right@.skip(0) =~= right@);
    while i < left.len() && i < right.len()
        invariant
            i <= left@.len(),
            i <= right@.len(),
            precedes(left@, right@) == precedes(left@.skip(i as int), right@.skip(i as int)),
        decreases left@.len() - i,
    {
        let ghost first = left@.skip(i as int);
        let ghost second = right@.skip(i as int);
        assert(first[0] == left@[i as int]);
        assert(second[0] == right@[i as int]);
        if left[i] != right[i] {
            return left[i] < right[i];
        }
        assert(first.drop_first() =~= left@.skip(i + 1));
        assert(second.drop_first() =~= right@.skip(i + 1));
        i = i + 1;
    }
    assert(left@.skip(i as int).len() == left@.len() - i);
    assert(right@.skip(i as int).len() == right@.len() - i);
    i < right.len()
}

/// The name of the lock of a path of a connection.
pub open spec fn lock_name(connection_id: Seq<char>, path: Seq<char>) -> Seq<char> {
    text::decimal_text(connection_id.len()) + ":"@ + connection_id + path
}

/// The paths that an operation locks: each once, in order.
pub open spec fn locked_paths(source: Seq<char>, destination: Seq<char>) -> Seq<Seq<char>> {
    if source == destination {
        seq![source]
    } else if precedes(source, destination) {
        seq![source, destination]
    } else {
        seq![destination, source]
    }
}

/// The locks that an operation takes, in the order in which it takes them.
pub open spec fn lock_names(connection_id: Seq<char>, source: Seq<char>, destination: Seq<char>) -> Seq<Seq<char>> {
    Seq::new(
        locked_paths(source, destination).len(),
        |i: int| lock_name(connection_id, locked_paths(source, destination)[i]),
    )
}

/// The texts in a vector.
pub open spec fn texts(names: Seq<String>) -> Seq<Seq<char>> {
    Seq::new(names.len(), |i: int| names[i]@)
}

fn path_lock_name(connection_id: &str, path: &str) -> (name: String)
    ensures
        name@ == lock_name(connection_id@, path@),
{
    let length = decimal(connection_id.unicode_len() as u64);
    joined4(length.as_str(), ":", connection_id, path)
}

/// The locks that a copy or rename takes, in the order in which it takes them.
pub fn remote_path_locks(connection_id: &str, source_path: &str, destination_path: &str) -> (names: Vec<String>)
    ensures
        texts(names@) == lock_names(connection_id@, source_path@, destination_path@),
{
    let mut names: Vec<String> = Vec::new();
    if same_text(source_path, destination_path) {
        names.push(path_lock_name(connection_id, source_path));
    } else {
        let source = characters(source_path);
        let destination = characters(destination_path);
        if stands_before(&source, &destination) {
            names.push(path_lock_name(connection_id, source_path));
            names.push(path_lock_name(connection_id, destination_path));
        } else {
            names.push(path_lock_name(connection_id, destination_path));
            names.push(path_lock_name(connection_id, source_path));
        }
    }
    assert(texts(names@) =~= lock_names(connection_id@, source_path@, destination_path@));
    names
}

/// Two operations on the same two paths take the same locks in the same order,
/// whichever of the paths is the source of which.
pub proof fn lock_order_ignores_direction(connection_id: Seq<char>, first: Seq<char>, second: Seq<char>)
    ensures
        lock_names(connection_id, first, second) == lock_names(connection_id, second, first),
{
    lemma_order_is_total(first, second);
    assert(locked_paths(first, second) =~= locked_paths(second, first));
    assert(lock_names(connection_id, first, second) =~= lock_names(connection_id, second, first));
}

/// Every operation takes its locks in one order, so no two of them can wait for
/// each other.
pub proof fn locks_are_taken_in_order(source: Seq<char>, destination: Seq<char>)
    ensures
        1 <= locked_paths(source, destination).len() <= 2,
        locked_paths(source, destination).len() == 2 ==> precedes(
            locked_paths(source, destination)[0],
            locked_paths(source, destination)[1],
        ),
        locked_paths(source, destination).contains(source),
        locked_paths(source, destination).contains(destination),
{
    lemma_order_is_total(source, destination);
    let paths = locked_paths(source, destination);
    if source == destination {
        assert(paths[0] == source);
    } else if precedes(source, destination) {
        assert(paths[0] == source);
        assert(paths[1] == destination);
    } else {
        assert(paths[0] == destination);
        assert(paths[1] == source);
    }
}

/// Different paths, and paths of different connections, have different locks.
pub proof fn lock_names_are_distinct(
    connection_id: Seq<char>,
    path: Seq<char>,
    other_connection: Seq<char>,
    other_path: Seq<char>,
)
    requires
        lock_name(connection_id, path) == lock_name(other_connection, other_path),
    ensures
        connection_id == other_connection,
        path == other_path,
{
    reveal_strlit(":");
    assert(":"@ =~= seq![':']);
    assert(lock_name(connection_id, path) =~= fingerprint::counted(connection_id) + path);
    assert(lock_name(other_connection, other_path) =~= fingerprint::counted(other_connection) + other_path);
    fingerprint::counted_then_rest(connection_id, path, other_connection, other_path);
}

/// A lock: the operations that it is kept for, and the line of those that want
/// it by now. The first in line holds it, and the others wait.
/// Operations are told apart by numbers: whoever runs them gives each its own.
#[derive(Debug)]
pub struct PathLock {
    pub users: Vec<u64>,
    pub line: Vec<u64>,
}

/// The locks that exist.
#[derive(Debug)]
pub struct PathLockRegistry {
    pub locks: TextMap<PathLock>,
}

/// The operations that a lock is kept for.
pub open spec fn at_lock(registry: PathLockRegistry, name: Seq<char>) -> Seq<u64> {
    match text_map::lookup(registry.locks.entries(), name) {
        Some(lock) => lock.users@,
        None => Seq::empty(),
    }
}

/// The operations in line for a lock.
pub open spec fn in_line(registry: PathLockRegistry, name: Seq<char>) -> Seq<u64> {
    match text_map::lookup(registry.locks.entries(), name) {
        Some(lock) => lock.line@,
        None => Seq::empty(),
    }
}

/// The operation holds the lock: it is the first in line.
pub open spec fn is_held_by(registry: PathLockRegistry, name: Seq<char>, operation: u64) -> bool {
    in_line(registry, name).len() > 0 && in_line(registry, name)[0] == operation
}

/// The operation waits for the lock: it is in line behind another.
pub open spec fn waits_for(registry: PathLockRegistry, name: Seq<char>, operation: u64) -> bool {
    in_line(registry, name).contains(operation) && !is_held_by(registry, name, operation)
}

/// No lock exists that is kept for nobody.
pub open spec fn is_pruned(registry: PathLockRegistry) -> bool {
    forall|name: Seq<char>|
        (#[trigger] text_map::lookup(registry.locks.entries(), name)) is Some ==> text_map::lookup(
            registry.locks.entries(),
            name,
        )->0.users@.len() > 0
}

/// Only operations that a lock is kept for are in line for it.
pub open spec fn lines_are_of_users(registry: PathLockRegistry) -> bool {
    forall|name: Seq<char>, operation: u64| #[trigger]
        in_line(registry, name).contains(operation) ==> at_lock(registry, name).contains(operation)
}

/// The registry keeps no lock for nobody, and lets nobody else into a line.
pub open spec fn is_orderly(registry: PathLockRegistry) -> bool {
    is_pruned(registry) && lines_are_of_users(registry)
}

/// The same locks exist but for one name.
pub open spec fn same_but(before: PathLockRegistry, after: PathLockRegistry, name: Seq<char>) -> bool {
    forall|other: Seq<char>|
        other != name ==> #[trigger] text_map::lookup(after.locks.entries(), other) == text_map::lookup(
            before.locks.entries(),
            other,
        )
}

/// What happens to a registry by the hand of an operation at one lock: it has the
/// lock kept, lines up for it, or leaves it.
pub open spec fn changed_by(before: PathLockRegistry, after: PathLockRegistry, name: Seq<char>, operation: u64) -> bool {
    &&& same_but(before, after, name)
    &&& {
        ||| in_line(after, name) == in_line(before, name) && at_lock(after, name) == at_lock(before, name).push(operation)
        ||| in_line(after, name) == in_line(before, name) && at_lock(after, name) == at_lock(before, name)
        ||| in_line(after, name) == in_line(before, name).push(operation) && at_lock(after, name) == at_lock(
            before,
            name,
        )
        ||| at_lock(after, name) == line::without(at_lock(before, name), operation) && in_line(after, name) == (if at_lock(
            after,
            name,
        ).len() > 0 {
            line::without(in_line(before, name), operation)
        } else {
            Seq::empty()
        })
    }
}

proof fn lemma_stays_orderly(before: PathLockRegistry, after: PathLockRegistry, name: Seq<char>)
    requires
        is_orderly(before),
        same_but(before, after, name),
        text_map::lookup(after.locks.entries(), name) matches Some(lock) ==> lock.users@.len() > 0,
        forall|operation: u64| #[trigger]
            in_line(after, name).contains(operation) ==> at_lock(after, name).contains(operation),
    ensures
        is_orderly(after),
{
    assert forall|other: Seq<char>, operation: u64| #[trigger]
        in_line(after, other).contains(operation) implies at_lock(after, other).contains(operation) by {
        if other != name {
            assert(text_map::lookup(before.locks.entries(), other) == text_map::lookup(after.locks.entries(), other));
            assert(in_line(before, other).contains(operation));
        }
    }
    assert forall|other: Seq<char>|
        (#[trigger] text_map::lookup(after.locks.entries(), other)) is Some implies text_map::lookup(
        after.locks.entries(),
        other,
    )->0.users@.len() > 0 by {
        if other != name {
            assert(text_map::lookup(before.locks.entries(), other) == text_map::lookup(after.locks.entries(), other));
        }
    }
}

impl PathLockRegistry {
    /// No lock exists.
    pub fn new() -> (registry: PathLockRegistry)
        ensures
            registry.locks.entries().len() == 0,
            is_orderly(registry),
    {
        let registry = PathLockRegistry { locks: TextMap::new() };
        assert(is_pruned(registry)) by {
            assert forall|name: Seq<char>|
                (#[trigger] text_map::lookup(registry.locks.entries(), name)) is Some implies text_map::lookup(
                registry.locks.entries(),
                name,
            )->0.users@.len() > 0 by {
                text_map::lemma_position(registry.locks.entries(), name);
            }
        }
        assert(lines_are_of_users(registry)) by {
            assert forall|name: Seq<char>, operation: u64| #[trigger]
                in_line(registry, name).contains(operation) implies at_lock(registry, name).contains(operation) by {
                text_map::lemma_position(registry.locks.entries(), name);
            }
        }
        registry
    }

    /// Says whether no lock exists.
    pub fn is_empty(&self) -> (empty: bool)
        ensures
            empty == (self.locks.entries().len() == 0),
    {
        self.locks.len() == 0
    }

    /// Has a lock kept for an operation, which is made where it does not exist.
    pub fn enter(&mut self, name: &str, operation: u64)
        ensures
            at_lock(*final(self), name@) == at_lock(*old(self), name@).push(operation),
            in_line(*final(self), name@) == in_line(*old(self), name@),
            same_but(*old(self), *final(self), name@),
            is_orderly(*old(self)) ==> is_orderly(*final(self)),
            changed_by(*old(self), *final(self), name@, operation),
    {
        let mut lock: PathLock = match self.locks.remove(name) {
            Some(present) => present,
            None => PathLock { users: Vec::new(), line: Vec::new() },
        };
        lock.users.push(operation);
        let _ = self.locks.insert(name.to_owned(), lock);
        proof {
            assert(same_but(*old(self), *self, name@));
            if is_orderly(*old(self)) {
                assert forall|queued: u64| #[trigger] in_line(*self, name@).contains(queued) implies at_lock(
                    *self,
                    name@,
                ).contains(queued) by {
                    assert(in_line(*old(self), name@).contains(queued));
                    let users = at_lock(*old(self), name@);
                    let at = choose|at: int| 0 <= at < users.len() && users[at] == queued;
                    assert(users.push(operation)[at] == queued);
                }
                lemma_stays_orderly(*old(self), *self, name@);
            }
        }
    }

    /// Puts an operation at the end of the line for a lock that is kept for it,
    /// unless it is in line already. Says whether it holds the lock.
    pub fn line_up(&mut self, name: &str, operation: u64) -> (held: bool)
        ensures
            held == is_held_by(*final(self), name@, operation),
            at_lock(*final(self), name@) == at_lock(*old(self), name@),
            in_line(*final(self), name@) == (if at_lock(*old(self), name@).contains(operation) && !in_line(
                *old(self),
                name@,
            ).contains(operation) {
                in_line(*old(self), name@).push(operation)
            } else {
                in_line(*old(self), name@)
            }),
            same_but(*old(self), *final(self), name@),
            is_orderly(*old(self)) ==> is_orderly(*final(self)),
            changed_by(*old(self), *final(self), name@, operation),
    {
        match self.locks.remove(name) {
            Some(present) => {
                let mut lock = present;
                if is_among(&lock.users, operation) && !is_among(&lock.line, operation) {
                    lock.line.push(operation);
                }
                let held = lock.line.len() > 0 && lock.line[0] == operation;
                let _ = self.locks.insert(name.to_owned(), lock);
                proof {
                    assert(same_but(*old(self), *self, name@));
                    if is_orderly(*old(self)) {
                        assert(text_map::lookup(old(self).locks.entries(), name@) is Some);
                        assert forall|queued: u64| #[trigger] in_line(*self, name@).contains(queued) implies at_lock(
                            *self,
                            name@,
                        ).contains(queued) by {
                            if queued != operation {
                                let line = in_line(*self, name@);
                                let at = choose|at: int| 0 <= at < line.len() && line[at] == queued;
                                assert(in_line(*old(self), name@)[at] == queued);
                                assert(in_line(*old(self), name@).contains(queued));
                            } else if in_line(*self, name@) == in_line(*old(self), name@) {
                                assert(in_line(*old(self), name@).contains(queued));
                            }
                        }
                        lemma_stays_orderly(*old(self), *self, name@);
                    }
                }
                held
            },
            None => {
                proof {
                    assert(same_but(*old(self), *self, name@));
                    if is_orderly(*old(self)) {
                        lemma_stays_orderly(*old(self), *self, name@);
                    }
                }
                false
            },
        }
    }

    /// Says whether an operation holds a lock.
    pub fn holds(&self, name: &str, operation: u64) -> (held: bool)
        ensures
            held == is_held_by(*self, name@, operation),
    {
        match self.locks.get(name) {
            Some(lock) => lock.line.len() > 0 && lock.line[0] == operation,
            None => false,
        }
    }

    /// Takes an operation away from a lock and out of its line. The lock goes
    /// with the last operation that it was kept for.
    pub fn leave(&mut self, name: &str, operation: u64)
        ensures
            at_lock(*final(self), name@) == line::without(at_lock(*old(self), name@), operation),
            in_line(*final(self), name@) == (if line::without(at_lock(*old(self), name@), operation).len() > 0 {
                line::without(in_line(*old(self), name@), operation)
            } else {
                Seq::empty()
            }),
            text_map::lookup(final(self).locks.entries(), name@) is None <==> line::without(
                at_lock(*old(self), name@),
                operation,
            ).len() == 0,
            same_but(*old(self), *final(self), name@),
            is_orderly(*old(self)) ==> is_orderly(*final(self)),
            changed_by(*old(self), *final(self), name@, operation),
    {
        let lock: PathLock = match self.locks.remove(name) {
            Some(present) => present,
            None => PathLock { users: Vec::new(), line: Vec::new() },
        };
        let users = remaining(&lock.users, operation);
        let line = remaining(&lock.line, operation);
        if users.len() > 0 {
            let _ = self.locks.insert(name.to_owned(), PathLock { users, line });
        }
        proof {
            assert(same_but(*old(self), *self, name@));
            if is_orderly(*old(self)) {
                assert forall|queued: u64| #[trigger] in_line(*self, name@).contains(queued) implies at_lock(
                    *self,
                    name@,
                ).contains(queued) by {
                    line::lemma_come_from(in_line(*old(self), name@), operation, queued);
                    line::lemma_others_stay(at_lock(*old(self), name@), operation, queued);
                }
                lemma_stays_orderly(*old(self), *self, name@);
            }
        }
    }
}

/// An operation works on two paths of a connection: it holds their locks.
pub open spec fn works_on(
    registry: PathLockRegistry,
    operation: u64,
    connection_id: Seq<char>,
    source: Seq<char>,
    destination: Seq<char>,
) -> bool {
    forall|i: int|
        0 <= i < lock_names(connection_id, source, destination).len() ==> is_held_by(
            registry,
            #[trigger] lock_names(connection_id, source, destination)[i],
            operation,
        )
}

/// Two operations never work on a path at the same time, whichever of the paths
/// is the source of which: the second one waits until the first one left.
pub proof fn a_second_operation_waits(
    registry: PathLockRegistry,
    first: u64,
    second: u64,
    connection_id: Seq<char>,
    source: Seq<char>,
    destination: Seq<char>,
    other_source: Seq<char>,
    other_destination: Seq<char>,
)
    requires
        first != second,
        works_on(registry, first, connection_id, source, destination),
        other_source == source || other_source == destination || other_destination == source || other_destination
            == destination,
    ensures
        !works_on(registry, second, connection_id, other_source, other_destination),
{
    let paths = locked_paths(source, destination);
    let others = locked_paths(other_source, other_destination);
    locks_are_taken_in_order(source, destination);
    locks_are_taken_in_order(other_source, other_destination);
    let shared = if other_source == source || other_source == destination {
        other_source
    } else {
        other_destination
    };
    let i = choose|i: int| 0 <= i < paths.len() && paths[i] == shared;
    let j = choose|j: int| 0 <= j < others.len() && others[j] == shared;
    assert(paths.contains(shared));
    assert(others.contains(shared));
    assert(lock_names(connection_id, source, destination)[i] == lock_name(connection_id, shared));
    assert(lock_names(connection_id, other_source, other_destination)[j] == lock_name(connection_id, shared));
    if works_on(registry, second, connection_id, other_source, other_destination) {
        assert(is_held_by(registry, lock_name(connection_id, shared), first));
        assert(is_held_by(registry, lock_name(connection_id, shared), second));
    }
}

/// An operation that holds a lock keeps it whatever the others do, until it
/// leaves.
pub proof fn holders_stay_until_they_leave(
    before: PathLockRegistry,
    after: PathLockRegistry,
    name: Seq<char>,
    other: u64,
    held: Seq<char>,
    operation: u64,
)
    requires
        is_orderly(before),
        changed_by(before, after, name, other),
        other != operation,
        is_held_by(before, held, operation),
    ensures
        is_held_by(after, held, operation),
{
    if held == name {
        line::lemma_first_stays(in_line(before, name), other);
        assert(in_line(before, name).contains(operation));
        line::lemma_others_stay(at_lock(before, name), other, operation);
    } else {
        assert(text_map::lookup(after.locks.entries(), held) == text_map::lookup(before.locks.entries(), held));
    }
}

/// How far an operation came with its locks: it holds the ones before a place in
/// their order, waits for the one at that place, and is not in line for those
/// behind it.
pub open spec fn waits_at(registry: PathLockRegistry, names: Seq<Seq<char>>, place: int, operation: u64) -> bool {
    &&& 0 <= place < names.len()
    &&& forall|i: int| 0 <= i < place ==> is_held_by(registry, #[trigger] names[i], operation)
    &&& waits_for(registry, names[place], operation)
    &&& forall|i: int| place < i < names.len() ==> !in_line(registry, #[trigger] names[i]).contains(operation)
}

/// Two operations never wait for each other: of two that wait, one waits for a
/// lock that the other does not hold.
pub proof fn operations_do_not_wait_for_each_other(
    registry: PathLockRegistry,
    first: u64,
    first_connection: Seq<char>,
    source: Seq<char>,
    destination: Seq<char>,
    place: int,
    second: u64,
    second_connection: Seq<char>,
    other_source: Seq<char>,
    other_destination: Seq<char>,
    other_place: int,
)
    requires
        waits_at(registry, lock_names(first_connection, source, destination), place, first),
        waits_at(registry, lock_names(second_connection, other_source, other_destination), other_place, second),
    ensures
        !(exists|i: int|
            0 <= i < other_place && lock_names(first_connection, source, destination)[place] == #[trigger] lock_names(
                second_connection,
                other_source,
                other_destination,
            )[i]) || !(exists|i: int|
            0 <= i < place && lock_names(second_connection, other_source, other_destination)[other_place]
                == #[trigger] lock_names(first_connection, source, destination)[i]),
{
    let paths = locked_paths(source, destination);
    let others = locked_paths(other_source, other_destination);
    locks_are_taken_in_order(source, destination);
    locks_are_taken_in_order(other_source, other_destination);
    let names = lock_names(first_connection, source, destination);
    let other_names = lock_names(second_connection, other_source, other_destination);
    if (exists|i: int| 0 <= i < other_place && names[place] == #[trigger] other_names[i]) && (exists|i: int|
        0 <= i < place && other_names[other_place] == #[trigger] names[i]) {
        let j = choose|i: int| 0 <= i < other_place && names[place] == #[trigger] other_names[i];
        let i = choose|i: int| 0 <= i < place && other_names[other_place] == #[trigger] names[i];
        lock_names_are_distinct(first_connection, paths[place], second_connection, others[j]);
        lock_names_are_distinct(second_connection, others[other_place], first_connection, paths[i]);
        assert(i == 0 && place == 1 && j == 0 && other_place == 1);
        lemma_order_is_total(paths[0], paths[1]);
    }
}

/// An operation that waits for one of its locks.
pub struct Waiter {
    pub operation: u64,
    pub connection_id: Seq<char>,
    pub source: Seq<char>,
    pub destination: Seq<char>,
    /// The place of the lock that it waits for, in the order of its locks.
    pub place: int,
}

impl Waiter {
    /// The locks of the operation, in the order in which it takes them.
    pub open spec fn names(self) -> Seq<Seq<char>> {
        lock_names(self.connection_id, self.source, self.destination)
    }

    /// The operation waits for a lock that another waiting operation holds.
    pub open spec fn waits_behind(self, other: Waiter) -> bool {
        exists|i: int| 0 <= i < other.place && self.names()[self.place] == #[trigger] other.names()[i]
    }
}

// The first paths of operations that wait behind one another stand in order.
proof fn lemma_waiters_stand_in_order(registry: PathLockRegistry, waiters: Seq<Waiter>, at: int)
    requires
        1 <= at < waiters.len(),
        forall|i: int|
            0 <= i < waiters.len() ==> waits_at(
                registry,
                (#[trigger] waiters[i]).names(),
                waiters[i].place,
                waiters[i].operation,
            ),
        forall|i: int| 0 <= i < waiters.len() - 1 ==> (#[trigger] waiters[i]).waits_behind(waiters[i + 1]),
        waiters[0].place == 1,
    ensures
        waiters[at].place == 1,
        precedes(
            locked_paths(waiters[0].source, waiters[0].destination)[0],
            locked_paths(waiters[at].source, waiters[at].destination)[0],
        ),
    decreases at,
{
    let one = waiters[at - 1];
    let next = waiters[at];
    let paths = locked_paths(one.source, one.destination);
    let others = locked_paths(next.source, next.destination);
    locks_are_taken_in_order(one.source, one.destination);
    locks_are_taken_in_order(next.source, next.destination);
    if at > 1 {
        lemma_waiters_stand_in_order(registry, waiters, at - 1);
    }
    assert(one.waits_behind(waiters[at - 1 + 1]));
    let i = choose|i: int| 0 <= i < next.place && one.names()[one.place] == #[trigger] next.names()[i];
    assert(waits_at(registry, next.names(), next.place, next.operation));
    lock_names_are_distinct(one.connection_id, paths[1], next.connection_id, others[i]);
    assert(paths[1] == others[0]);
    if at > 1 {
        lemma_order_is_transitive(
            locked_paths(waiters[0].source, waiters[0].destination)[0],
            paths[0],
            paths[1],
        );
    }
}

/// No operations wait for one another in a circle, however many there are: where
/// each waits for a lock that the next holds, the last is not the first.
pub proof fn operations_do_not_wait_in_a_circle(registry: PathLockRegistry, waiters: Seq<Waiter>)
    requires
        waiters.len() >= 2,
        forall|i: int|
            0 <= i < waiters.len() ==> waits_at(
                registry,
                (#[trigger] waiters[i]).names(),
                waiters[i].place,
                waiters[i].operation,
            ),
        forall|i: int| 0 <= i < waiters.len() - 1 ==> (#[trigger] waiters[i]).waits_behind(waiters[i + 1]),
    ensures
        waiters.last() != waiters[0],
{
    let last = waiters.len() - 1;
    if waiters[last] == waiters[0] {
        let before = waiters[last - 1];
        assert(before.waits_behind(waiters[last - 1 + 1]));
        let first = waiters[0];
        assert(waits_at(registry, first.names(), first.place, first.operation));
        locks_are_taken_in_order(first.source, first.destination);
        assert(first.place == 1);
        lemma_waiters_stand_in_order(registry, waiters, last);
        let path = locked_paths(first.source, first.destination)[0];
        lemma_order_is_total(path, path);
    }
}

/// The locks of two paths are those of one operation alone, and of no other.
pub open spec fn is_alone(
    registry: PathLockRegistry,
    operation: u64,
    connection_id: Seq<char>,
    source: Seq<char>,
    destination: Seq<char>,
) -> bool {
    forall|name: Seq<char>|
        (#[trigger] at_lock(registry, name)).len() > 0 ==> lock_names(connection_id, source, destination).contains(
            name,
        ) && line::without(at_lock(registry, name), operation).len() == 0
}

/// The registry is empty where no lock is kept for anybody.
pub proof fn unused_registries_are_empty(registry: PathLockRegistry)
    requires
        is_pruned(registry),
        forall|name: Seq<char>| (#[trigger] at_lock(registry, name)).len() == 0,
    ensures
        registry.locks.entries().len() == 0,
{
    let entries = registry.locks.entries();
    if entries.len() > 0 {
        let name = entries[0].0;
        text_map::lemma_position(entries, name);
        assert(text_map::lookup(entries, name) is Some);
        assert(at_lock(registry, name).len() == 0);
    }
}

/// Once the last operation left its locks, the registry is empty.
pub proof fn registries_end_empty(
    before: PathLockRegistry,
    between: PathLockRegistry,
    after: PathLockRegistry,
    operation: u64,
    connection_id: Seq<char>,
    source: Seq<char>,
    destination: Seq<char>,
)
    requires
        is_alone(before, operation, connection_id, source, destination),
        is_pruned(after),
        ({
            let names = lock_names(connection_id, source, destination);
            &&& same_but(before, between, names[0])
            &&& at_lock(between, names[0]) == line::without(at_lock(before, names[0]), operation)
            &&& same_but(between, after, names.last())
            &&& at_lock(after, names.last()) == line::without(at_lock(between, names.last()), operation)
        }),
    ensures
        after.locks.entries().len() == 0,
{
    let names = lock_names(connection_id, source, destination);
    locks_are_taken_in_order(source, destination);
    assert forall|name: Seq<char>| (#[trigger] at_lock(after, name)).len() == 0 by {
        if name != names.last() {
            assert(text_map::lookup(after.locks.entries(), name) == text_map::lookup(between.locks.entries(), name));
        }
        if name != names[0] {
            assert(text_map::lookup(between.locks.entries(), name) == text_map::lookup(before.locks.entries(), name));
        }
        assert(at_lock(before, name).len() > 0 ==> names.contains(name));
        assert(line::without(Seq::<u64>::empty(), operation).len() == 0);
        if at_lock(before, name).len() == 0 {
            assert(at_lock(before, name) =~= Seq::<u64>::empty());
        }
        if name == names.last() && name == names[0] {
            assert(at_lock(between, name).len() == 0);
            assert(at_lock(between, name) =~= Seq::<u64>::empty());
        }
        if names.contains(name) {
            let i = choose|i: int| 0 <= i < names.len() && names[i] == name;
            assert(i == 0 || i == names.len() - 1);
        }
    }
    unused_registries_are_empty(after);
}

/// The order of two texts is decided by the first characters that differ, and a
/// text stands before those that it begins.
pub proof fn the_first_difference_decides_the_order(
    common: Seq<char>,
    left: char,
    left_rest: Seq<char>,
    right: char,
    right_rest: Seq<char>,
)
    ensures
        left != right ==> (precedes(common + seq![left] + left_rest, common + seq![right] + right_rest) <==> left
            < right),
        precedes(common, common + seq![right] + right_rest),
        !precedes(common + seq![right] + right_rest, common),
    decreases common.len(),
{
    let mine = common + seq![left] + left_rest;
    let other = common + seq![right] + right_rest;
    if common.len() > 0 {
        the_first_difference_decides_the_order(common.drop_first(), left, left_rest, right, right_rest);
        assert(mine.drop_first() =~= common.drop_first() + seq![left] + left_rest);
        assert(other.drop_first() =~= common.drop_first() + seq![right] + right_rest);
    }
}

} // verus!
