//! The transfers that are queued or running: how many there may be, how they are
//! cancelled together, and how often their progress is shown.
use crate::progress::GLOBAL_PROGRESS_INTERVAL_MILLIS;
use crate::text::same_text;
use crate::text_map;
use crate::text_map::TextMap;
use vstd::prelude::*;

verus! {

/// How many transfers may run at once.
pub const GLOBAL_TRANSFER_LIMIT: usize = 8;

/// How many transfers of one connection may run at once.
pub const CONNECTION_TRANSFER_LIMIT: usize = 4;

/// How many uploads may be queued or running.
pub const GLOBAL_UPLOAD_HANDLE_LIMIT: usize = 32;

/// How many uploads of one connection may be queued or running.
pub const CONNECTION_UPLOAD_HANDLE_LIMIT: usize = 8;

/// A transfer that is queued or running.
#[derive(Debug)]
pub struct ActiveTransfer {
    pub connection_id: String,
    pub upload: bool,
}

/// The transfers that are queued or running, by their identifiers.
#[derive(Debug)]
pub struct FileTransferRuntime {
    pub active: TextMap<ActiveTransfer>,
    /// The transfers that were told to stop.
    pub cancelled: TextMap<()>,
    /// The connections that have a limit of their own by now.
    pub limited: TextMap<()>,
    /// When progress was last shown, in milliseconds.
    pub last_progress_event: Option<u64>,
    /// Transfers that were cut off have been dealt with.
    pub recovered: bool,
}

/// The transfer is an upload.
pub open spec fn is_upload() -> spec_fn(ActiveTransfer) -> bool {
    |transfer: ActiveTransfer| transfer.upload
}

/// The transfer goes over this connection.
pub open spec fn is_over(connection_id: Seq<char>) -> spec_fn(ActiveTransfer) -> bool {
    |transfer: ActiveTransfer| transfer.connection_id@ == connection_id
}

/// The transfer is an upload over this connection.
pub open spec fn is_upload_over(connection_id: Seq<char>) -> spec_fn(ActiveTransfer) -> bool {
    |transfer: ActiveTransfer| transfer.upload && transfer.connection_id@ == connection_id
}

impl FileTransferRuntime {
    /// How many uploads are queued or running.
    pub open spec fn uploads(&self) -> nat {
        text_map::count_where(self.active.entries(), is_upload())
    }

    /// How many uploads over a connection are queued or running.
    pub open spec fn uploads_over(&self, connection_id: Seq<char>) -> nat {
        text_map::count_where(self.active.entries(), is_upload_over(connection_id))
    }

    /// How many transfers over a connection are queued or running.
    pub open spec fn transfers_over(&self, connection_id: Seq<char>) -> nat {
        text_map::count_where(self.active.entries(), is_over(connection_id))
    }

    /// No more uploads are queued or running than may be, in all and over each
    /// connection.
    pub open spec fn uploads_are_bounded(&self) -> bool {
        &&& self.uploads() <= GLOBAL_UPLOAD_HANDLE_LIMIT
        &&& forall|connection_id: Seq<char>| #[trigger]
            self.uploads_over(connection_id) <= CONNECTION_UPLOAD_HANDLE_LIMIT
    }

    /// The transfer was told to stop.
    pub open spec fn is_told_to_stop(&self, transfer_id: Seq<char>) -> bool {
        text_map::lookup(self.cancelled.entries(), transfer_id) is Some
    }

    /// The transfer is queued or running over this connection.
    pub open spec fn runs_over(&self, transfer_id: Seq<char>, connection_id: Seq<char>) -> bool {
        text_map::lookup(self.active.entries(), transfer_id) matches Some(transfer)
            && transfer.connection_id@ == connection_id
    }

    /// No transfer is queued or running.
    pub fn new() -> (runtime: FileTransferRuntime)
        ensures
            runtime.active.entries().len() == 0,
            runtime.cancelled.entries().len() == 0,
            runtime.limited.entries().len() == 0,
            runtime.last_progress_event is None,
            !runtime.recovered,
            runtime.uploads_are_bounded(),
    {
        FileTransferRuntime {
            active: TextMap::new(),
            cancelled: TextMap::new(),
            limited: TextMap::new(),
            last_progress_event: None,
            recovered: false,
        }
    }

    /// Gives a connection a limit of its own, unless it has one. Says whether
    /// it is new.
    pub fn connection_limit(&mut self, connection_id: &str) -> (new: bool)
        ensures
            final(self).active == old(self).active,
            final(self).cancelled == old(self).cancelled,
            final(self).last_progress_event == old(self).last_progress_event,
            final(self).recovered == old(self).recovered,
            new == (text_map::lookup(old(self).limited.entries(), connection_id@) is None),
            text_map::lookup(final(self).limited.entries(), connection_id@) is Some,
            forall|other: Seq<char>|
                other != connection_id@ ==> #[trigger] text_map::lookup(final(self).limited.entries(), other)
                    == text_map::lookup(old(self).limited.entries(), other),
    {
        if self.limited.contains(connection_id) {
            return false;
        }
        let _ = self.limited.insert(connection_id.to_owned(), ());
        true
    }

    /// Takes a download, copy or rename up, which was not told to stop yet.
    pub fn register(&mut self, transfer_id: String, connection_id: String)
        ensures
            forall|id: Seq<char>| #[trigger]
                final(self).is_told_to_stop(id) == (old(self).is_told_to_stop(id) && id != transfer_id@),
            final(self).limited == old(self).limited,
            final(self).last_progress_event == old(self).last_progress_event,
            final(self).recovered == old(self).recovered,
            text_map::lookup(final(self).active.entries(), transfer_id@) == Some(
                ActiveTransfer { connection_id, upload: false },
            ),
            forall|other: Seq<char>|
                other != transfer_id@ ==> #[trigger] text_map::lookup(final(self).active.entries(), other)
                    == text_map::lookup(old(self).active.entries(), other),
            old(self).uploads_are_bounded() ==> final(self).uploads_are_bounded(),
    {
        let _ = self.cancelled.remove(transfer_id.as_str());
        let transfer = ActiveTransfer { connection_id, upload: false };
        let ghost name = transfer_id@;
        let _ = self.active.insert(transfer_id, transfer);
        proof {
            let before = old(self).active.entries();
            let after = self.active.entries();
            Self::lemma_count_after_insert(before, after, name, transfer, is_upload());
            if old(self).uploads_are_bounded() {
                assert forall|id: Seq<char>| #[trigger] self.uploads_over(id) <= CONNECTION_UPLOAD_HANDLE_LIMIT by {
                    assert(old(self).uploads_over(id) <= CONNECTION_UPLOAD_HANDLE_LIMIT);
                    Self::lemma_count_after_insert(before, after, name, transfer, is_upload_over(id));
                }
            }
        }
    }

    /// How many entries a test holds of behind an insertion.
    proof fn lemma_count_after_insert(
        before: Seq<(Seq<char>, ActiveTransfer)>,
        after: Seq<(Seq<char>, ActiveTransfer)>,
        name: Seq<char>,
        transfer: ActiveTransfer,
        test: spec_fn(ActiveTransfer) -> bool,
    )
        requires
            text_map::position(before, name) < 0 ==> after == before.push((name, transfer)),
            text_map::position(before, name) >= 0 ==> after == before.remove(
                text_map::position(before, name),
            ).push((name, transfer)),
        ensures
            text_map::count_where(after, test) <= text_map::count_where(before, test) + (if test(transfer) {
                1nat
            } else {
                0nat
            }),
    {
        let at = text_map::position(before, name);
        text_map::lemma_position(before, name);
        if at >= 0 {
            text_map::lemma_count_removed(before, at, test);
            assert(after.drop_last() =~= before.remove(at));
        } else {
            assert(after.drop_last() =~= before);
        }
        assert(after.last() == (name, transfer));
    }

    fn count_uploads(&self) -> (count: usize)
        ensures
            count == self.uploads(),
    {
        let total: usize = self.active.len();
        let mut count: usize = 0;
        let mut i: usize = 0;
        let ghost entries = self.active.entries();
        assert(entries.take(0) =~= Seq::<(Seq<char>, ActiveTransfer)>::empty());
        while i < total
            invariant
                i <= total,
                count <= i,
                entries == self.active.entries(),
                total == entries.len(),
                count == text_map::count_where(entries.take(i as int), is_upload()),
            decreases total - i,
        {
            proof {
                assert(entries.take(i + 1).drop_last() =~= entries.take(i as int));
                assert(entries.take(i + 1).last() == entries[i as int]);
            }
            if self.active.value_at(i).upload {
                count = count + 1;
            }
            i = i + 1;
        }
        assert(entries.take(i as int) =~= entries);
        count
    }

    fn count_over(&self, connection_id: &str, uploads_only: bool) -> (count: usize)
        ensures
            uploads_only ==> count == self.uploads_over(connection_id@),
            !uploads_only ==> count == self.transfers_over(connection_id@),
    {
        let total: usize = self.active.len();
        let mut count: usize = 0;
        let mut i: usize = 0;
        let ghost entries = self.active.entries();
        let ghost test = if uploads_only {
            is_upload_over(connection_id@)
        } else {
            is_over(connection_id@)
        };
        assert(entries.take(0) =~= Seq::<(Seq<char>, ActiveTransfer)>::empty());
        while i < total
            invariant
                i <= total,
                count <= i,
                entries == self.active.entries(),
                total == entries.len(),
                test == (if uploads_only {
                    is_upload_over(connection_id@)
                } else {
                    is_over(connection_id@)
                }),
                count == text_map::count_where(entries.take(i as int), test),
            decreases total - i,
        {
            proof {
                assert(entries.take(i + 1).drop_last() =~= entries.take(i as int));
                assert(entries.take(i + 1).last() == entries[i as int]);
            }
            let transfer = self.active.value_at(i);
            if (transfer.upload || !uploads_only) && same_text(
                transfer.connection_id.as_str(),
                connection_id,
            ) {
                count = count + 1;
            }
            i = i + 1;
        }
        assert(entries.take(i as int) =~= entries);
        count
    }

    /// Takes an upload up, which was not told to stop yet, unless too many are
    /// queued or running.
    pub fn register_upload(&mut self, transfer_id: String, connection_id: String) -> (taken: Result<(), String>)
        ensures
            forall|id: Seq<char>| #[trigger]
                final(self).is_told_to_stop(id) == (old(self).is_told_to_stop(id) && !(taken is Ok && id
                    == transfer_id@)),
            final(self).limited == old(self).limited,
            final(self).last_progress_event == old(self).last_progress_event,
            final(self).recovered == old(self).recovered,
            if old(self).uploads() >= GLOBAL_UPLOAD_HANDLE_LIMIT {
                taken matches Err(reason) && reason@
                    == "Too many active or queued uploads; wait for an upload to finish"@
                    && final(self).active == old(self).active
            } else if old(self).uploads_over(connection_id@) >= CONNECTION_UPLOAD_HANDLE_LIMIT {
                taken matches Err(reason) && reason@ == "Too many active or queued uploads for this connection"@
                    && final(self).active == old(self).active
            } else {
                &&& taken is Ok
                &&& text_map::lookup(final(self).active.entries(), transfer_id@) == Some(
                    ActiveTransfer { connection_id, upload: true },
                )
                &&& forall|other: Seq<char>|
                    other != transfer_id@ ==> #[trigger] text_map::lookup(final(self).active.entries(), other)
                        == text_map::lookup(old(self).active.entries(), other)
            },
            old(self).uploads_are_bounded() ==> final(self).uploads_are_bounded(),
    {
        if self.count_uploads() >= GLOBAL_UPLOAD_HANDLE_LIMIT {
            return Err("Too many active or queued uploads; wait for an upload to finish".to_owned());
        }
        if self.count_over(connection_id.as_str(), true) >= CONNECTION_UPLOAD_HANDLE_LIMIT {
            return Err("Too many active or queued uploads for this connection".to_owned());
        }
        let ghost name = transfer_id@;
        let _ = self.cancelled.remove(transfer_id.as_str());
        let transfer = ActiveTransfer { connection_id, upload: true };
        let _ = self.active.insert(transfer_id, transfer);
        proof {
            let before = old(self).active.entries();
            let after = self.active.entries();
            Self::lemma_count_after_insert(before, after, name, transfer, is_upload());
            if old(self).uploads_are_bounded() {
                assert forall|id: Seq<char>| #[trigger] self.uploads_over(id) <= CONNECTION_UPLOAD_HANDLE_LIMIT by {
                    assert(old(self).uploads_over(id) <= CONNECTION_UPLOAD_HANDLE_LIMIT);
                    Self::lemma_count_after_insert(before, after, name, transfer, is_upload_over(id));
                }
            }
        }
        Ok(())
    }

    /// Tells a transfer to stop that is queued or running. Says whether it was.
    pub fn cancel(&mut self, transfer_id: &str) -> (told: bool)
        ensures
            final(self).active == old(self).active,
            final(self).limited == old(self).limited,
            final(self).last_progress_event == old(self).last_progress_event,
            final(self).recovered == old(self).recovered,
            told == (text_map::lookup(old(self).active.entries(), transfer_id@) is Some),
            forall|id: Seq<char>| #[trigger]
                final(self).is_told_to_stop(id) == (old(self).is_told_to_stop(id) || (told && id == transfer_id@)),
    {
        if !self.active.contains(transfer_id) {
            return false;
        }
        let _ = self.cancelled.insert(transfer_id.to_owned(), ());
        true
    }

    /// Says whether a transfer was told to stop.
    pub fn is_cancelled(&self, transfer_id: &str) -> (told: bool)
        ensures
            told == self.is_told_to_stop(transfer_id@),
    {
        self.cancelled.contains(transfer_id)
    }

    /// Tells every transfer over a connection to stop, queued or running, and no
    /// other. Says how many there are.
    pub fn cancel_connection(&mut self, connection_id: &str) -> (count: usize)
        ensures
            final(self).active == old(self).active,
            final(self).limited == old(self).limited,
            final(self).last_progress_event == old(self).last_progress_event,
            final(self).recovered == old(self).recovered,
            count == old(self).transfers_over(connection_id@),
            forall|id: Seq<char>| #[trigger]
                final(self).is_told_to_stop(id) == (old(self).is_told_to_stop(id) || old(self).runs_over(
                    id,
                    connection_id@,
                )),
    {
        let total: usize = self.active.len();
        let mut i: usize = 0;
        let ghost entries = self.active.entries();
        let ghost before = self.cancelled.entries();
        while i < total
            invariant
                i <= total,
                entries == self.active.entries(),
                total == entries.len(),
                text_map::keys_are_unique(entries),
                self.active == old(self).active,
                self.limited == old(self).limited,
                self.last_progress_event == old(self).last_progress_event,
                self.recovered == old(self).recovered,
                before == old(self).cancelled.entries(),
                forall|id: Seq<char>| #[trigger]
                    self.is_told_to_stop(id) == (old(self).is_told_to_stop(id) || exists|j: int|
                        0 <= j < i && (#[trigger] entries[j]).0 == id && entries[j].1.connection_id@
                            == connection_id@),
            decreases total - i,
        {
            let ghost earlier = *self;
            let transfer = self.active.value_at(i);
            if same_text(transfer.connection_id.as_str(), connection_id) {
                let id = self.active.key_at(i).to_owned();
                let _ = self.cancelled.insert(id, ());
            }
            proof {
                assert forall|id: Seq<char>| #[trigger]
                    self.is_told_to_stop(id) == (old(self).is_told_to_stop(id) || exists|j: int|
                        0 <= j < i + 1 && (#[trigger] entries[j]).0 == id && entries[j].1.connection_id@
                            == connection_id@) by {
                    let here = entries[i as int].0 == id && entries[i as int].1.connection_id@ == connection_id@;
                    assert(self.is_told_to_stop(id) == (earlier.is_told_to_stop(id) || here));
                    if exists|j: int|
                        0 <= j < i + 1 && (#[trigger] entries[j]).0 == id && entries[j].1.connection_id@
                            == connection_id@ {
                        let j = choose|j: int|
                            0 <= j < i + 1 && (#[trigger] entries[j]).0 == id && entries[j].1.connection_id@
                                == connection_id@;
                        assert(j < i || here);
                    }
                }
            }
            i = i + 1;
        }
        proof {
            assert forall|id: Seq<char>| #[trigger]
                self.is_told_to_stop(id) == (old(self).is_told_to_stop(id) || old(self).runs_over(
                    id,
                    connection_id@,
                )) by {
                text_map::lemma_position(entries, id);
                let at = text_map::position(entries, id);
                if old(self).runs_over(id, connection_id@) {
                    assert(entries[at].0 == id);
                }
                if exists|j: int|
                    0 <= j < i && (#[trigger] entries[j]).0 == id && entries[j].1.connection_id@ == connection_id@ {
                    let j = choose|j: int|
                        0 <= j < i && (#[trigger] entries[j]).0 == id && entries[j].1.connection_id@
                            == connection_id@;
                    text_map::lemma_unique_position(entries, j);
                }
            }
        }
        self.count_over(connection_id, false)
    }

    /// The transfers that are queued or running over a connection.
    pub fn transfer_ids(&self, connection_id: &str) -> (ids: Vec<String>)
        ensures
            ids@.len() == self.transfers_over(connection_id@),
            forall|i: int| 0 <= i < ids@.len() ==> self.runs_over((#[trigger] ids@[i])@, connection_id@),
            forall|i: int, j: int|
                0 <= i < j < ids@.len() ==> (#[trigger] ids@[i])@ != (#[trigger] ids@[j])@,
            forall|id: Seq<char>| #[trigger]
                self.runs_over(id, connection_id@) ==> exists|i: int| 0 <= i < ids@.len() && (#[trigger] ids@[i])@ == id,
    {
        let total: usize = self.active.len();
        let mut ids: Vec<String> = Vec::new();
        let mut i: usize = 0;
        let ghost entries = self.active.entries();
        assert(entries.take(0) =~= Seq::<(Seq<char>, ActiveTransfer)>::empty());
        while i < total
            invariant
                i <= total,
                entries == self.active.entries(),
                total == entries.len(),
                text_map::keys_are_unique(entries),
                forall|j: int| 0 <= j < ids@.len() ==> self.runs_over((#[trigger] ids@[j])@, connection_id@),
                forall|j: int|
                    0 <= j < ids@.len() ==> text_map::position(entries, (#[trigger] ids@[j])@) < i,
                forall|j: int, k: int|
                    0 <= j < k < ids@.len() ==> (#[trigger] ids@[j])@ != (#[trigger] ids@[k])@,
                forall|p: int|
                    0 <= p < i && (#[trigger] entries[p]).1.connection_id@ == connection_id@ ==> exists|j: int|
                        0 <= j < ids@.len() && (#[trigger] ids@[j])@ == entries[p].0,
                ids@.len() == text_map::count_where(entries.take(i as int), is_over(connection_id@)),
            decreases total - i,
        {
            proof {
                assert(entries.take(i + 1).drop_last() =~= entries.take(i as int));
                assert(entries.take(i + 1).last() == entries[i as int]);
                text_map::lemma_unique_position(entries, i as int);
            }
            let ghost earlier = ids@;
            if same_text(self.active.value_at(i).connection_id.as_str(), connection_id) {
                ids.push(self.active.key_at(i).to_owned());
                assert(ids@[earlier.len() as int]@ == entries[i as int].0);
            }
            proof {
                assert forall|p: int|
                    0 <= p < i + 1 && (#[trigger] entries[p]).1.connection_id@ == connection_id@ implies exists|j: int|
                    0 <= j < ids@.len() && (#[trigger] ids@[j])@ == entries[p].0 by {
                    if p < i {
                        let j = choose|j: int| 0 <= j < earlier.len() && (#[trigger] earlier[j])@ == entries[p].0;
                        assert(ids@[j] == earlier[j]);
                    }
                }
            }
            i = i + 1;
        }
        proof {
            assert(entries.take(i as int) =~= entries);
            assert forall|id: Seq<char>| #[trigger] self.runs_over(id, connection_id@) implies exists|j: int|
                0 <= j < ids@.len() && (#[trigger] ids@[j])@ == id by {
                text_map::lemma_position(entries, id);
                let at = text_map::position(entries, id);
                assert(entries[at].0 == id);
            }
        }
        ids
    }

    /// Lets a transfer go. The limit of its connection goes with the last
    /// transfer over it.
    pub fn unregister(&mut self, transfer_id: &str)
        ensures
            final(self).last_progress_event == old(self).last_progress_event,
            final(self).recovered == old(self).recovered,
            text_map::lookup(final(self).active.entries(), transfer_id@) is None,
            !final(self).is_told_to_stop(transfer_id@),
            forall|other: Seq<char>|
                other != transfer_id@ ==> #[trigger] text_map::lookup(final(self).active.entries(), other)
                    == text_map::lookup(old(self).active.entries(), other),
            forall|other: Seq<char>|
                other != transfer_id@ ==> #[trigger] final(self).is_told_to_stop(other) == old(
                    self,
                ).is_told_to_stop(other),
            match text_map::lookup(old(self).active.entries(), transfer_id@) {
                None => final(self).limited == old(self).limited,
                Some(transfer) => if final(self).transfers_over(transfer.connection_id@) > 0 {
                    final(self).limited == old(self).limited
                } else {
                    &&& text_map::lookup(final(self).limited.entries(), transfer.connection_id@) is None
                    &&& forall|other: Seq<char>|
                        other != transfer.connection_id@ ==> #[trigger] text_map::lookup(
                            final(self).limited.entries(),
                            other,
                        ) == text_map::lookup(old(self).limited.entries(), other)
                },
            },
            old(self).uploads_are_bounded() ==> final(self).uploads_are_bounded(),
    {
        proof {
            let entries = self.active.entries();
            let at = text_map::position(entries, transfer_id@);
            text_map::lemma_position(entries, transfer_id@);
            if at >= 0 {
                text_map::lemma_count_removed(entries, at, is_upload());
                assert forall|connection_id: Seq<char>| #[trigger]
                    text_map::count_where(entries.remove(at), is_upload_over(connection_id))
                        <= text_map::count_where(entries, is_upload_over(connection_id)) by {
                    text_map::lemma_count_removed(entries, at, is_upload_over(connection_id));
                }
            }
        }
        let _ = self.cancelled.remove(transfer_id);
        match self.active.remove(transfer_id) {
            None => {},
            Some(transfer) => {
                if self.count_over(transfer.connection_id.as_str(), false) == 0 {
                    let _ = self.limited.remove(transfer.connection_id.as_str());
                }
            },
        }
        proof {
            if old(self).uploads_are_bounded() {
                assert forall|id: Seq<char>| #[trigger] self.uploads_over(id) <= CONNECTION_UPLOAD_HANDLE_LIMIT by {
                    assert(old(self).uploads_over(id) <= CONNECTION_UPLOAD_HANDLE_LIMIT);
                    assert(text_map::count_where(self.active.entries(), is_upload_over(id)) == self.uploads_over(id));
                }
            }
        }
    }

    /// Says whether progress is shown now: not too often.
    pub fn should_emit_progress(&mut self, now: u64) -> (shown: bool)
        ensures
            final(self).active == old(self).active,
            final(self).cancelled == old(self).cancelled,
            final(self).limited == old(self).limited,
            final(self).recovered == old(self).recovered,
            shown == (match old(self).last_progress_event {
                Some(last) => now - last >= GLOBAL_PROGRESS_INTERVAL_MILLIS,
                None => true,
            }),
            final(self).last_progress_event == (if shown {
                Some(now)
            } else {
                old(self).last_progress_event
            }),
    {
        if let Some(last) = self.last_progress_event {
            if now < last || now - last < GLOBAL_PROGRESS_INTERVAL_MILLIS {
                return false;
            }
        }
        self.last_progress_event = Some(now);
        true
    }

    /// Says whether an update is shown: only that of a transfer that still runs,
    /// and not too often.
    pub fn should_emit_update(&mut self, status: &str, now: u64) -> (shown: bool)
        ensures
            final(self).active == old(self).active,
            final(self).cancelled == old(self).cancelled,
            final(self).limited == old(self).limited,
            final(self).recovered == old(self).recovered,
            shown == (status@ == "running"@ && (match old(self).last_progress_event {
                Some(last) => now - last >= GLOBAL_PROGRESS_INTERVAL_MILLIS,
                None => true,
            })),
            final(self).last_progress_event == (if shown {
                Some(now)
            } else {
                old(self).last_progress_event
            }),
    {
        same_text(status, "running") && self.should_emit_progress(now)
    }

    /// Takes whether the transfers that were cut off could be dealt with. It is
    /// tried again where they could not.
    pub fn recovery_ended(&mut self, result: Result<(), String>) -> (passed: Result<(), String>)
        ensures
            passed == result,
            final(self).active == old(self).active,
            final(self).cancelled == old(self).cancelled,
            final(self).limited == old(self).limited,
            final(self).last_progress_event == old(self).last_progress_event,
            final(self).recovered == (old(self).recovered || result is Ok),
    {
        if result.is_ok() {
            self.recovered = true;
        }
        result
    }
}

impl Default for FileTransferRuntime {
    fn default() -> (runtime: FileTransferRuntime)
        ensures
            runtime.active.entries().len() == 0,
            runtime.cancelled.entries().len() == 0,
            runtime.limited.entries().len() == 0,
            runtime.last_progress_event is None,
            !runtime.recovered,
            runtime.uploads_are_bounded(),
    {
        FileTransferRuntime::new()
    }
}

/// No more than thirty-two uploads wait or run at once, and no more than eight over
/// one connection. A count is zero exactly where no such transfer waits or runs.
pub proof fn counts_are_of_the_transfers_that_wait_or_run(runtime: FileTransferRuntime, connection_id: Seq<char>)
    ensures
        runtime.uploads_are_bounded() ==> runtime.uploads() <= 32 && runtime.uploads_over(connection_id) <= 8,
        runtime.uploads() <= runtime.active.entries().len(),
        runtime.uploads() == 0 <==> forall|i: int|
            0 <= i < runtime.active.entries().len() ==> !(#[trigger] runtime.active.entries()[i]).1.upload,
        runtime.transfers_over(connection_id) == 0 <==> forall|i: int|
            0 <= i < runtime.active.entries().len() ==> (#[trigger] runtime.active.entries()[i]).1.connection_id@
                != connection_id,
        runtime.uploads_over(connection_id) == 0 <==> forall|i: int|
            0 <= i < runtime.active.entries().len() ==> !((#[trigger] runtime.active.entries()[i]).1.upload
                && runtime.active.entries()[i].1.connection_id@ == connection_id),
{
    let entries = runtime.active.entries();
    text_map::lemma_count_bound(entries, is_upload());
    text_map::lemma_count_bound(entries, is_over(connection_id));
    text_map::lemma_count_bound(entries, is_upload_over(connection_id));
}

/// One more transfer that waits or runs is counted once, among those of its
/// connection and, where it is an upload, among the uploads.
pub proof fn transfers_are_counted_once(
    entries: Seq<(Seq<char>, ActiveTransfer)>,
    transfer_id: Seq<char>,
    transfer: ActiveTransfer,
    connection_id: Seq<char>,
)
    ensures
        text_map::count_where(entries.push((transfer_id, transfer)), is_over(connection_id)) == text_map::count_where(
            entries,
            is_over(connection_id),
        ) + (if transfer.connection_id@ == connection_id {
            1nat
        } else {
            0nat
        }),
        text_map::count_where(entries.push((transfer_id, transfer)), is_upload()) == text_map::count_where(
            entries,
            is_upload(),
        ) + (if transfer.upload {
            1nat
        } else {
            0nat
        }),
        text_map::count_where(entries.push((transfer_id, transfer)), is_upload_over(connection_id))
            == text_map::count_where(entries, is_upload_over(connection_id)) + (if transfer.upload
            && transfer.connection_id@ == connection_id {
            1nat
        } else {
            0nat
        }),
{
    assert(entries.push((transfer_id, transfer)).drop_last() =~= entries);
}

/// A transfer runs over the connection that it was taken up with, and was told to
/// stop exactly where it is among those that were.
pub proof fn transfers_run_over_their_connection(
    runtime: FileTransferRuntime,
    transfer_id: Seq<char>,
    connection_id: Seq<char>,
)
    ensures
        runtime.runs_over(transfer_id, connection_id) <==> (text_map::lookup(
            runtime.active.entries(),
            transfer_id,
        ) matches Some(transfer) && transfer.connection_id@ == connection_id),
        runtime.is_told_to_stop(transfer_id) <==> exists|i: int|
            0 <= i < runtime.cancelled.entries().len() && (#[trigger] runtime.cancelled.entries()[i]).0 == transfer_id,
{
    text_map::lemma_position(runtime.cancelled.entries(), transfer_id);
    if runtime.is_told_to_stop(transfer_id) {
        let at = text_map::position(runtime.cancelled.entries(), transfer_id);
        assert(runtime.cancelled.entries()[at].0 == transfer_id);
    }
}

/// Eight transfers run at once, four of them over one connection; thirty-two
/// uploads are taken, eight of them over one connection. One more than that is not
/// bounded.
pub proof fn limits_are_what_they_are(runtime: FileTransferRuntime, connection_id: Seq<char>)
    ensures
        GLOBAL_TRANSFER_LIMIT == 8 && CONNECTION_TRANSFER_LIMIT == 4,
        GLOBAL_UPLOAD_HANDLE_LIMIT == 32 && CONNECTION_UPLOAD_HANDLE_LIMIT == 8,
        runtime.uploads() > 32 ==> !runtime.uploads_are_bounded(),
        runtime.uploads_over(connection_id) > 8 ==> !runtime.uploads_are_bounded(),
        runtime.uploads() <= 32 && (forall|id: Seq<char>| #[trigger] runtime.uploads_over(id) <= 8)
            ==> runtime.uploads_are_bounded(),
{
}

} // verus!
