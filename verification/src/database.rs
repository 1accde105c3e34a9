use vstd::prelude::*;

use crate::change_list::ParameterChangeList;
use crate::change_list::all_slots_clear;
use crate::content::DatabaseContent;
use crate::database_error::DatabaseError;
use crate::parameter::DatabaseParameter;
use crate::subscriber_handler::DatabaseSubscriberHandler;

verus! {

/// Read access to a database's live content, one field per ordinal.
///
/// This indirection lets subset values be built against the database without
/// the subscriber handler being templated over the database type itself.
pub trait DatabaseRef<Parameter> where Parameter: DatabaseParameter {
    /// The current value of every field, indexed by ordinal.
    spec fn live_params(&self) -> Seq<Parameter>;

    /// The field at ordinal `i` is always tagged with ordinal `i`.
    proof fn lemma_live_params_wf(&self)
        ensures
            forall|i: int|
                0 <= i < self.live_params().len() ==> (#[trigger] self.live_params()[i]).ordinal()
                    == i,
    ;

    /// Gives the same result as `get`.
    fn internal_get(&self, parameter: &Parameter) -> (r: Parameter)
        requires
            0 <= parameter.ordinal() < self.live_params().len(),
        ensures
            r == self.live_params()[parameter.ordinal()],
    ;
}

/// The field values after applying every parameter of `batch`, in order, to
/// the field values `params`.
pub open spec fn params_after<Parameter: DatabaseParameter>(
    params: Seq<Parameter>,
    batch: Seq<Parameter>,
) -> Seq<Parameter>
    decreases batch.len(),
{
    if batch.len() == 0 {
        params
    } else {
        params_after(params.update(batch[0].ordinal(), batch[0]), batch.skip(1))
    }
}

/// The pending-change ledger after recording every parameter of `batch`, in
/// order, into the ledger `pending`: each write coalesces with the change
/// already pending for its ordinal, the last value winning.
pub open spec fn ledger_after<Parameter: DatabaseParameter>(
    pending: Seq<Option<Parameter>>,
    batch: Seq<Parameter>,
) -> Seq<Option<Parameter>>
    decreases batch.len(),
{
    if batch.len() == 0 {
        pending
    } else {
        ledger_after(pending.update(batch[0].ordinal(), Some(batch[0])), batch.skip(1))
    }
}

/// Whether applying `batch`, in order, to the field values `params` truly
/// changes some field: each parameter is compared against the value the
/// field has at the moment that parameter is applied.
pub open spec fn batch_changes<Parameter: DatabaseParameter>(
    params: Seq<Parameter>,
    batch: Seq<Parameter>,
) -> bool
    decreases batch.len(),
{
    if batch.len() == 0 {
        false
    } else {
        batch[0] != params[batch[0].ordinal()] || batch_changes(
            params.update(batch[0].ordinal(), batch[0]),
            batch.skip(1),
        )
    }
}

/// A `DatabaseHandler` is the runtime engine of one database: it composes
/// the content store, the pending-change ledger, the coalescing dirty flag
/// and the subscriber registry.
///
/// The content and the ledger are mutated together, atomically from the
/// point of view of every other operation, so a concurrent reader never
/// observes a partially-applied batch. The subscriber registry is guarded by
/// a separate non-blocking lock, held while observers run and while the
/// embedder registers observers through `lock_subscriber_handler`.
pub struct DatabaseHandler<
    InternalContent,
    InternalSubscriberHandler,
    Parameter,
    const PARAMETER_COUNT: usize,
> {
    content: InternalContent,
    change_list: ParameterChangeList<Parameter, PARAMETER_COUNT>,
    /// `None` while the registry lock is held.
    subscriber_handler: Option<InternalSubscriberHandler>,
    has_changed: bool,
}

impl<
    InternalContent,
    InternalSubscriberHandler,
    Parameter,
    const PARAMETER_COUNT: usize,
> DatabaseHandler<InternalContent, InternalSubscriberHandler, Parameter, PARAMETER_COUNT> where
    Parameter: DatabaseParameter,
    InternalContent: DatabaseContent<Parameter, PARAMETER_COUNT>,
    InternalSubscriberHandler: DatabaseSubscriberHandler<Parameter, PARAMETER_COUNT>,
 {
    /// The current value of every field, indexed by ordinal.
    pub closed spec fn params(&self) -> Seq<Parameter> {
        self.content.params()
    }

    /// The pending-change ledger: the changes written since the previous
    /// successful drain, one optional slot per ordinal.
    pub closed spec fn pending(&self) -> Seq<Option<Parameter>> {
        self.change_list@
    }

    /// The coalescing dirty flag: raised by any batch that truly changed a
    /// field, cleared only by draining.
    pub closed spec fn dirty(&self) -> bool {
        self.has_changed
    }

    /// Whether the subscriber registry lock is currently held.
    pub closed spec fn registry_locked(&self) -> bool {
        self.subscriber_handler is None
    }

    /// The subscriber registry, while the registry lock is free.
    pub closed spec fn handler(&self) -> Option<InternalSubscriberHandler> {
        self.subscriber_handler
    }

    /// The engine invariant: the ledger holds one slot per ordinal, and a
    /// pending change at slot `i` is always tagged with ordinal `i`.
    pub open spec fn wf(&self) -> bool {
        &&& self.pending().len() == PARAMETER_COUNT as int
        &&& forall|i: int|
            0 <= i < self.pending().len() && self.pending()[i] is Some ==> (#[trigger] self.pending()[i])->0.ordinal() == i
    }

    /// Create a new database from its initial content and its (not yet
    /// populated) subscriber registry: no change pending, dirty flag clear,
    /// registry lock free.
    pub fn new(content: InternalContent, subscriber_handler: InternalSubscriberHandler) -> (r:
        Self)
        ensures
            r.wf(),
            r.params() == content.params(),
            all_slots_clear(r.pending()),
            !r.dirty(),
            r.handler() == Some(subscriber_handler),
            !r.registry_locked(),
    {
        DatabaseHandler {
            content,
            change_list: ParameterChangeList::new(),
            subscriber_handler: Some(subscriber_handler),
            has_changed: false,
        }
    }

    /// Retrieve a value from the database. Always succeeds for a valid tag;
    /// the payload of `parameter` is ignored.
    pub fn get(&self, parameter: &Parameter) -> (r: Parameter)
        requires
            0 <= parameter.ordinal() < PARAMETER_COUNT as int,
        ensures
            r == self.params()[parameter.ordinal()],
    {
        self.content.get(parameter)
    }

    /// Set an array of parameters in the database, as one atomic batch
    /// covering both the content and the ledger. Each applied parameter is
    /// recorded in the ledger, coalescing with any change already pending
    /// for its ordinal, and the dirty flag is raised if and only if some
    /// field truly changed (it is never cleared here). No notification
    /// happens synchronously; changes are acted upon by a later
    /// `notify_subscribers` call.
    pub fn multi_set(&mut self, parameters: &[Parameter])
        requires
            old(self).wf(),
            forall|i: int|
                0 <= i < parameters@.len() ==> 0 <= (#[trigger] parameters@[i]).ordinal()
                    < PARAMETER_COUNT as int,
        ensures
            final(self).wf(),
            final(self).params() == params_after(old(self).params(), parameters@),
            final(self).pending() == ledger_after(old(self).pending(), parameters@),
            final(self).dirty() == (old(self).dirty() || batch_changes(
                old(self).params(),
                parameters@,
            )),
            final(self).handler() == old(self).handler(),
            final(self).registry_locked() == old(self).registry_locked(),
    {
        let mut has_changed = false;
        let mut i: usize = 0;
        while i < parameters.len()
            invariant
                i <= parameters@.len(),
                forall|j: int|
                    0 <= j < parameters@.len() ==> 0 <= (#[trigger] parameters@[j]).ordinal()
                        < PARAMETER_COUNT as int,
                self.wf(),
                self.params() == params_after(old(self).params(), parameters@.take(i as int)),
                self.pending() == ledger_after(old(self).pending(), parameters@.take(i as int)),
                has_changed == batch_changes(old(self).params(), parameters@.take(i as int)),
                self.handler() == old(self).handler(),
                self.registry_locked() == old(self).registry_locked(),
                self.dirty() == old(self).dirty(),
            decreases parameters@.len() - i as int,
        {
            let parameter = parameters[i];
            let current_value = self.content.get(&parameter);
            self.content.set(parameter);
            if !parameter.same_value(&current_value) {
                has_changed = true;
            }
            self.change_list.record(parameter);
            proof {
                let taken = parameters@.take(i as int);
                assert(parameters@.take(i as int + 1) =~= taken.push(parameter));
                lemma_params_after_push(old(self).params(), taken, parameter);
                lemma_ledger_after_push(old(self).pending(), taken, parameter);
                lemma_batch_changes_push(old(self).params(), taken, parameter);
            }
            i = i + 1;
        }
        proof {
            assert(parameters@.take(parameters@.len() as int) =~= parameters@);
        }
        if has_changed {
            self.has_changed = true;
        }
    }

    /// Set a single parameter in the database: a one-element batch.
    pub fn set(&mut self, parameter: &Parameter)
        requires
            old(self).wf(),
            0 <= parameter.ordinal() < PARAMETER_COUNT as int,
        ensures
            final(self).wf(),
            final(self).params() == old(self).params().update(parameter.ordinal(), *parameter),
            final(self).pending() == old(self).pending().update(
                parameter.ordinal(),
                Some(*parameter),
            ),
            final(self).dirty() == (old(self).dirty() || *parameter != old(self).params()[parameter.ordinal()]),
            final(self).handler() == old(self).handler(),
            final(self).registry_locked() == old(self).registry_locked(),
    {
        let list = vec![*parameter];
        self.multi_set(list.as_slice());
        proof {
            lemma_singleton_batch(old(self).params(), old(self).pending(), list@);
        }
    }

    /// Whether a `notify_subscribers` call in state `pre` dispatches to the
    /// subscriber registry: something is pending and the registry lock is
    /// free.
    pub open spec fn notify_dispatches(pre: Self) -> bool {
        pre.dirty() && !pre.registry_locked()
    }

    /// The result of a `notify_subscribers` call in state `pre`: it fails if
    /// and only if something is pending and the registry lock is held.
    pub open spec fn notify_result(pre: Self) -> Result<(), DatabaseError> {
        if pre.dirty() && pre.registry_locked() {
            Err(DatabaseError::SubscriberLock)
        } else {
            Ok(())
        }
    }

    /// The dirty flag after a `notify_subscribers` call in state `pre`: it
    /// stays raised exactly when the drain had to be rolled back.
    pub open spec fn dirty_after_notify(pre: Self) -> bool {
        pre.dirty() && pre.registry_locked()
    }

    /// The pending-change ledger after a `notify_subscribers` call in state
    /// `pre`: drained on dispatch, untouched otherwise.
    pub open spec fn pending_after_notify(pre: Self) -> Seq<Option<Parameter>> {
        if Self::notify_dispatches(pre) {
            Seq::new(PARAMETER_COUNT as nat, |i: int| None)
        } else {
            pre.pending()
        }
    }

    /// Notify all subscribers of changes made to the database. This is
    /// separated out from the set functionality, as the two may need to run
    /// under different contexts/priority levels.
    ///
    /// The call first consumes the dirty flag in one atomic swap; if nothing
    /// was pending it returns success without dispatching. Otherwise it
    /// drains the ledger and attempts to take the registry lock without
    /// blocking. On success the drained changes are dispatched and the call
    /// succeeds; if the lock is already held, every drained change whose
    /// slot is still empty is merged back, the dirty flag is raised again,
    /// and the call fails with `DatabaseError::SubscriberLock`, so that no
    /// observed update is ever permanently lost and a later call observes
    /// it.
    pub fn notify_subscribers(&mut self) -> (r: Result<(), DatabaseError>)
        requires
            old(self).wf(),
        ensures
            final(self).wf(),
            final(self).params() == old(self).params(),
            r == Self::notify_result(*old(self)),
            final(self).dirty() == Self::dirty_after_notify(*old(self)),
            final(self).pending() == Self::pending_after_notify(*old(self)),
            final(self).registry_locked() == old(self).registry_locked(),
            Self::notify_dispatches(*old(self)) ==> final(self).handler() is Some
                && InternalSubscriberHandler::notify_relation(
                old(self).handler()->0,
                final(self).handler()->0,
                old(self).params(),
                old(self).pending(),
            ),
            !Self::notify_dispatches(*old(self)) ==> final(self).handler() == old(self).handler(),
    {
        // Consume the dirty flag in one operation to see if something is
        // pending.
        let was_dirty = self.has_changed;
        self.has_changed = false;
        if !was_dirty {
            return Ok(());
        }
        // Drain the ledger into a local snapshot, clearing every live slot.
        let snapshot = self.change_list.take_all();
        // Take the registry lock without blocking.
        match self.subscriber_handler.take() {
            Some(mut handler) => {
                proof {
                    self.content.lemma_params_wf();
                }
                handler.notify_subscribers(&*self, &snapshot);
                self.subscriber_handler = Some(handler);
                proof {
                    assert(self.pending() =~= Self::pending_after_notify(*old(self)));
                    assert(snapshot@ == old(self).pending());
                }
                Ok(())
            },
            None => {
                // Put back the drained changes: only into slots that are
                // still empty, never over a value that arrived after the
                // snapshot was taken.
                self.change_list.restore(&snapshot);
                self.has_changed = true;
                proof {
                    assert(self.pending() =~= old(self).pending());
                }
                Err(DatabaseError::SubscriberLock)
            },
        }
    }

    /// The content this database shows through `DatabaseRef` is its own
    /// content: `live_params()` equals `params()`, one field per ordinal, so
    /// `internal_get` gives the same result as `get`.
    pub proof fn lemma_live_params(&self)
        ensures
            self.live_params() == self.params(),
            self.live_params().len() == PARAMETER_COUNT as int,
    {
        self.content.lemma_params_wf();
    }

    /// Take exclusive access to the subscriber registry, as for registering
    /// observers; this should be done before the database is actively used,
    /// since `notify_subscribers` fails while the registry lock is held.
    /// Returns `None`, changing nothing, if the lock is already held.
    /// Hand the registry back with `unlock_subscriber_handler`.
    pub fn lock_subscriber_handler(&mut self) -> (r: Option<InternalSubscriberHandler>)
        ensures
            r == old(self).handler(),
            final(self).registry_locked(),
            final(self).handler() is None,
            final(self).params() == old(self).params(),
            final(self).pending() == old(self).pending(),
            final(self).dirty() == old(self).dirty(),
            final(self).wf() == old(self).wf(),
    {
        self.subscriber_handler.take()
    }

    /// Release the subscriber registry lock taken by
    /// `lock_subscriber_handler`, handing the registry back.
    pub fn unlock_subscriber_handler(&mut self, handler: InternalSubscriberHandler)
        requires
            old(self).registry_locked(),
        ensures
            !final(self).registry_locked(),
            final(self).handler() == Some(handler),
            final(self).params() == old(self).params(),
            final(self).pending() == old(self).pending(),
            final(self).dirty() == old(self).dirty(),
            final(self).wf() == old(self).wf(),
    {
        self.subscriber_handler = Some(handler);
    }
}

impl<
    InternalContent,
    InternalSubscriberHandler,
    Parameter,
    const PARAMETER_COUNT: usize,
> DatabaseRef<Parameter> for DatabaseHandler<
    InternalContent,
    InternalSubscriberHandler,
    Parameter,
    PARAMETER_COUNT,
> where
    Parameter: DatabaseParameter,
    InternalContent: DatabaseContent<Parameter, PARAMETER_COUNT>,
    InternalSubscriberHandler: DatabaseSubscriberHandler<Parameter, PARAMETER_COUNT>,
 {
    closed spec fn live_params(&self) -> Seq<Parameter> {
        self.content.params()
    }

    proof fn lemma_live_params_wf(&self) {
        self.content.lemma_params_wf();
    }

    /// Glue to get the database to be referenced by a subscriber handler.
    fn internal_get(&self, parameter: &Parameter) -> (r: Parameter) {
        proof {
            self.content.lemma_params_wf();
        }
        self.get(parameter)
    }
}

/// Appending one more parameter to a batch updates the resulting field
/// values at that parameter's ordinal.
proof fn lemma_params_after_push<Parameter: DatabaseParameter>(
    params: Seq<Parameter>,
    batch: Seq<Parameter>,
    p: Parameter,
)
    ensures
        params_after(params, batch.push(p)) == params_after(params, batch).update(p.ordinal(), p),
    decreases batch.len(),
{
    reveal_with_fuel(params_after, 2);
    if batch.len() == 0 {
        assert(batch.push(p)[0] == p);
        assert(batch.push(p).skip(1) =~= Seq::<Parameter>::empty());
        assert(params_after(params, batch.push(p)) == params.update(p.ordinal(), p));
    } else {
        assert(batch.push(p)[0] == batch[0]);
        assert(batch.push(p).skip(1) =~= batch.skip(1).push(p));
        lemma_params_after_push(params.update(batch[0].ordinal(), batch[0]), batch.skip(1), p);
    }
}

/// Appending one more parameter to a batch records one more pending change
/// at that parameter's ordinal.
proof fn lemma_ledger_after_push<Parameter: DatabaseParameter>(
    pending: Seq<Option<Parameter>>,
    batch: Seq<Parameter>,
    p: Parameter,
)
    ensures
        ledger_after(pending, batch.push(p)) == ledger_after(pending, batch).update(
            p.ordinal(),
            Some(p),
        ),
    decreases batch.len(),
{
    reveal_with_fuel(ledger_after, 2);
    if batch.len() == 0 {
        assert(batch.push(p)[0] == p);
        assert(batch.push(p).skip(1) =~= Seq::<Parameter>::empty());
    } else {
        assert(batch.push(p)[0] == batch[0]);
        assert(batch.push(p).skip(1) =~= batch.skip(1).push(p));
        lemma_ledger_after_push(
            pending.update(batch[0].ordinal(), Some(batch[0])),
            batch.skip(1),
            p,
        );
    }
}

/// Appending one more parameter to a batch changes a field exactly when the
/// batch already did, or when the new parameter differs from the value its
/// field has after the batch.
proof fn lemma_batch_changes_push<Parameter: DatabaseParameter>(
    params: Seq<Parameter>,
    batch: Seq<Parameter>,
    p: Parameter,
)
    ensures
        batch_changes(params, batch.push(p)) == (batch_changes(params, batch) || p != params_after(
            params,
            batch,
        )[p.ordinal()]),
    decreases batch.len(),
{
    reveal_with_fuel(batch_changes, 2);
    reveal_with_fuel(params_after, 2);
    if batch.len() == 0 {
        assert(batch.push(p)[0] == p);
        assert(batch.push(p).skip(1) =~= Seq::<Parameter>::empty());
    } else {
        assert(batch.push(p)[0] == batch[0]);
        assert(batch.push(p).skip(1) =~= batch.skip(1).push(p));
        lemma_batch_changes_push(params.update(batch[0].ordinal(), batch[0]), batch.skip(1), p);
    }
}

/// A one-element batch is one update of the content, one coalescing record
/// in the ledger, and one comparison against the field's prior value.
proof fn lemma_singleton_batch<Parameter: DatabaseParameter>(
    params: Seq<Parameter>,
    pending: Seq<Option<Parameter>>,
    batch: Seq<Parameter>,
)
    requires
        batch.len() == 1,
    ensures
        params_after(params, batch) == params.update(batch[0].ordinal(), batch[0]),
        ledger_after(pending, batch) == pending.update(batch[0].ordinal(), Some(batch[0])),
        batch_changes(params, batch) == (batch[0] != params[batch[0].ordinal()]),
{
    assert(batch.skip(1) =~= Seq::<Parameter>::empty());
    assert(params_after(params.update(batch[0].ordinal(), batch[0]), batch.skip(1))
        == params.update(batch[0].ordinal(), batch[0]));
    assert(ledger_after(pending.update(batch[0].ordinal(), Some(batch[0])), batch.skip(1))
        == pending.update(batch[0].ordinal(), Some(batch[0])));
    assert(!batch_changes(params.update(batch[0].ordinal(), batch[0]), batch.skip(1)));
}

/// The last value a batch writes for ordinal `k`, if the batch touches `k`
/// at all.
pub open spec fn last_write<Parameter: DatabaseParameter>(
    batch: Seq<Parameter>,
    k: int,
) -> Option<Parameter>
    decreases batch.len(),
{
    if batch.len() == 0 {
        None
    } else if batch.last().ordinal() == k {
        Some(batch.last())
    } else {
        last_write(batch.drop_last(), k)
    }
}

/// After recording a batch, the slot of ordinal `k` holds the last value the
/// batch wrote for `k`, or keeps its prior content if the batch never
/// touched `k`.
pub proof fn lemma_ledger_after_last_write<Parameter: DatabaseParameter>(
    pending: Seq<Option<Parameter>>,
    batch: Seq<Parameter>,
    k: int,
)
    requires
        0 <= k < pending.len(),
        forall|j: int|
            0 <= j < batch.len() ==> 0 <= (#[trigger] batch[j]).ordinal() < pending.len(),
    ensures
        ledger_after(pending, batch).len() == pending.len(),
        ledger_after(pending, batch)[k] == match last_write(batch, k) {
            Some(p) => Some(p),
            None => pending[k],
        },
    decreases batch.len(),
{
    if batch.len() == 0 {
    } else {
        let rest = batch.drop_last();
        let q = batch.last();
        assert(rest.push(q) =~= batch);
        lemma_ledger_after_push(pending, rest, q);
        assert(forall|j: int|
            0 <= j < rest.len() ==> 0 <= (#[trigger] rest[j]).ordinal() < pending.len());
        lemma_ledger_after_last_write(pending, rest, k);
    }
}

/// A batch touches ordinal `k` if and only if it writes a last value for
/// `k`.
pub proof fn lemma_last_write_touched<Parameter: DatabaseParameter>(
    batch: Seq<Parameter>,
    k: int,
)
    ensures
        (exists|i: int| 0 <= i < batch.len() && (#[trigger] batch[i]).ordinal() == k)
            <==> last_write(batch, k) is Some,
    decreases batch.len(),
{
    if batch.len() == 0 {
    } else if batch.last().ordinal() == k {
        assert(batch[batch.len() - 1].ordinal() == k);
    } else {
        let rest = batch.drop_last();
        lemma_last_write_touched(rest, k);
        if exists|i: int| 0 <= i < batch.len() && (#[trigger] batch[i]).ordinal() == k {
            let i = choose|i: int| 0 <= i < batch.len() && (#[trigger] batch[i]).ordinal() == k;
            assert(i < batch.len() - 1);
            assert(rest[i].ordinal() == k);
        }
        if last_write(batch, k) is Some {
            let i = choose|i: int| 0 <= i < rest.len() && (#[trigger] rest[i]).ordinal() == k;
            assert(batch[i].ordinal() == k);
        }
    }
}

/// Law: notification is idempotent. After one `notify_subscribers` call,
/// a second call with no intervening write never dispatches — so two
/// consecutive calls dispatch at most once in total — and leaves the
/// database unchanged; when the registry lock is free, the second call is a
/// no-op success.
///
/// `mid` is the state one `notify_subscribers` call leaves behind from state
/// `pre`, as the call's contract describes it.
pub proof fn lemma_notify_idempotent<
    InternalContent,
    InternalSubscriberHandler,
    Parameter,
    const PARAMETER_COUNT: usize,
>(
    pre: DatabaseHandler<InternalContent, InternalSubscriberHandler, Parameter, PARAMETER_COUNT>,
    mid: DatabaseHandler<InternalContent, InternalSubscriberHandler, Parameter, PARAMETER_COUNT>,
) where
    Parameter: DatabaseParameter,
    InternalContent: DatabaseContent<Parameter, PARAMETER_COUNT>,
    InternalSubscriberHandler: DatabaseSubscriberHandler<Parameter, PARAMETER_COUNT>,

    requires
        mid.dirty() == DatabaseHandler::dirty_after_notify(pre),
        mid.pending() == DatabaseHandler::pending_after_notify(pre),
        mid.registry_locked() == pre.registry_locked(),
    ensures
        !DatabaseHandler::notify_dispatches(mid),
        DatabaseHandler::dirty_after_notify(mid) == mid.dirty(),
        DatabaseHandler::pending_after_notify(mid) == mid.pending(),
        !pre.registry_locked() ==> DatabaseHandler::notify_result(mid) == Ok::<
            (),
            DatabaseError,
        >(()),
{
}

/// Law: no loss under contention. Suppose a `multi_set` batch touches
/// ordinal `k` (its `i`-th parameter is tagged with `k`), leaving state
/// `written`, and an overlapping `notify_subscribers` then fails with
/// `DatabaseError::SubscriberLock`, leaving state `contended`. Then ordinal
/// `k`'s change is still pending in `contended` — restored or freshly
/// written — and once the registry lock is released (state `released`,
/// equal but for the lock), the next `notify_subscribers` call observes it:
/// it dispatches, and the changes it drains still hold `k`'s change.
///
/// `written` is the state the batch leaves behind from state `pre`, and
/// `contended` the state the failed notification leaves behind from
/// `written`, as the two calls' contracts describe them.
pub proof fn lemma_no_loss_under_contention<
    InternalContent,
    InternalSubscriberHandler,
    Parameter,
    const PARAMETER_COUNT: usize,
>(
    pre: DatabaseHandler<InternalContent, InternalSubscriberHandler, Parameter, PARAMETER_COUNT>,
    written: DatabaseHandler<
        InternalContent,
        InternalSubscriberHandler,
        Parameter,
        PARAMETER_COUNT,
    >,
    contended: DatabaseHandler<
        InternalContent,
        InternalSubscriberHandler,
        Parameter,
        PARAMETER_COUNT,
    >,
    released: DatabaseHandler<
        InternalContent,
        InternalSubscriberHandler,
        Parameter,
        PARAMETER_COUNT,
    >,
    batch: Seq<Parameter>,
    k: int,
    i: int,
) where
    Parameter: DatabaseParameter,
    InternalContent: DatabaseContent<Parameter, PARAMETER_COUNT>,
    InternalSubscriberHandler: DatabaseSubscriberHandler<Parameter, PARAMETER_COUNT>,

    requires
        pre.pending().len() == PARAMETER_COUNT as int,
        forall|j: int|
            0 <= j < batch.len() ==> 0 <= (#[trigger] batch[j]).ordinal() < PARAMETER_COUNT as int,
        0 <= i < batch.len(),
        batch[i].ordinal() == k,
        written.pending() == ledger_after(pre.pending(), batch),
        DatabaseHandler::notify_result(written) == Err::<(), DatabaseError>(
            DatabaseError::SubscriberLock,
        ),
        contended.dirty() == DatabaseHandler::dirty_after_notify(written),
        contended.pending() == DatabaseHandler::pending_after_notify(written),
        released.dirty() == contended.dirty(),
        released.pending() == contended.pending(),
        !released.registry_locked(),
    ensures
        contended.pending()[k] is Some,
        contended.dirty(),
        DatabaseHandler::notify_dispatches(released),
        released.pending()[k] is Some,
{
    assert(written.dirty() && written.registry_locked());
    lemma_last_write_touched(batch, k);
    lemma_ledger_after_last_write(pre.pending(), batch, k);
}

/// Law: coalescing. Two batches that both touch ordinal `k`, recorded
/// before any drain, leave exactly one pending entry for `k`: the single
/// slot of ordinal `k`, holding the last value for `k` written by the
/// second batch.
pub proof fn lemma_coalescing<Parameter: DatabaseParameter>(
    pending: Seq<Option<Parameter>>,
    first: Seq<Parameter>,
    second: Seq<Parameter>,
    k: int,
)
    requires
        0 <= k < pending.len(),
        forall|j: int|
            0 <= j < first.len() ==> 0 <= (#[trigger] first[j]).ordinal() < pending.len(),
        forall|j: int|
            0 <= j < second.len() ==> 0 <= (#[trigger] second[j]).ordinal() < pending.len(),
        exists|i: int| 0 <= i < first.len() && (#[trigger] first[i]).ordinal() == k,
        exists|i: int| 0 <= i < second.len() && (#[trigger] second[i]).ordinal() == k,
    ensures
        ledger_after(ledger_after(pending, first), second)[k] == Some(
            last_write(second, k)->0,
        ),
{
    lemma_last_write_touched(second, k);
    lemma_ledger_after_last_write(pending, first, k);
    lemma_ledger_after_last_write(ledger_after(pending, first), second, k);
}

} // verus!
