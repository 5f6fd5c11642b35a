//! Per-connection state: the instance identifier, the registry of calls that
//! await a result, the transaction counter, and the spatial state that the
//! client reports and the motion integrators advance.
//!
//! Scalars of the spatial state are held as the bit patterns of doubles. They
//! are stored and handed out as they are and never interpreted here.

use rand::Rng;
use vstd::prelude::*;

verus! {

/// What to do with the result of a call that the server made.
#[derive(Clone, Copy, Debug, PartialEq, Eq, Structural)]
pub enum ClientReturnHandlers {
    /// Reserved: no call is ever registered with it.
    SelectionEmpty,
    /// Reserved: no call is ever registered with it.
    ViewPerspective,
    /// The result is the client's view matrix.
    ViewAffine,
    /// The result is the point that the client's view looks at.
    ViewTarget,
}

impl ClientReturnHandlers {
    /// The handler is one that the server acts on.
    pub open spec fn implemented(self) -> bool {
        self == ClientReturnHandlers::ViewAffine || self == ClientReturnHandlers::ViewTarget
    }
}

/// The bit pattern of the double 1.
pub const ONE: u64 = 0x3FF0_0000_0000_0000;

/// A place and an orientation: a vector and a quaternion `(x, y, z, w)`.
#[derive(Clone, Copy, Debug, PartialEq, Eq)]
pub struct Position {
    pub pos: [u64; 3],
    pub rot: [u64; 4],
}

impl Position {
    /// The origin, not turned: the zero vector and the identity quaternion.
    pub fn new() -> (position: Position)
        ensures
            position.pos@ == seq![0u64, 0u64, 0u64],
            position.rot@ == seq![0u64, 0u64, 0u64, ONE],
    {
        let position = Position { pos: [0, 0, 0], rot: [0, 0, 0, ONE] };
        assert(position.pos@ =~= seq![0u64, 0u64, 0u64]);
        assert(position.rot@ =~= seq![0u64, 0u64, 0u64, ONE]);
        position
    }
}

/// A call that awaits its result.
pub struct PendingCallback {
    pub id: String,
    pub handler: ClientReturnHandlers,
}

/// The registry that a sequence of registrations amounts to: a later
/// registration under an identifier replaces an earlier one.
spec fn registry(entries: Seq<PendingCallback>) -> Map<Seq<char>, ClientReturnHandlers>
    decreases entries.len(),
{
    if entries.len() == 0 {
        Map::empty()
    } else {
        registry(entries.drop_last()).insert(entries.last().id@, entries.last().handler)
    }
}

/// No identifier occurs twice among `entries`.
spec fn distinct_ids(entries: Seq<PendingCallback>) -> bool {
    forall|i: int, j: int|
        0 <= i < j < entries.len() ==> (#[trigger] entries[i]).id@ != (#[trigger] entries[j]).id@
}

/// An identifier that no entry carries is not registered.
proof fn lemma_registry_absent(entries: Seq<PendingCallback>, id: Seq<char>)
    requires
        forall|i: int| 0 <= i < entries.len() ==> (#[trigger] entries[i]).id@ != id,
    ensures
        !registry(entries).dom().contains(id),
    decreases entries.len(),
{
    if entries.len() > 0 {
        lemma_registry_absent(entries.drop_last(), id);
    }
}

/// Where identifiers are distinct, each entry is registered as it stands.
proof fn lemma_registry_present(entries: Seq<PendingCallback>, at: int)
    requires
        distinct_ids(entries),
        0 <= at < entries.len(),
    ensures
        registry(entries).dom().contains(entries[at].id@),
        registry(entries)[entries[at].id@] == entries[at].handler,
    decreases entries.len(),
{
    if at < entries.len() - 1 {
        lemma_registry_present(entries.drop_last(), at);
    }
}

/// Where identifiers are distinct, taking an entry out unregisters its
/// identifier and nothing else.
proof fn lemma_registry_remove(entries: Seq<PendingCallback>, at: int)
    requires
        distinct_ids(entries),
        0 <= at < entries.len(),
    ensures
        registry(entries.remove(at)) == registry(entries).remove(entries[at].id@),
        distinct_ids(entries.remove(at)),
    decreases entries.len(),
{
    let id = entries[at].id@;
    let front = entries.drop_last();
    if at == entries.len() - 1 {
        assert(entries.remove(at) =~= front);
        lemma_registry_absent(front, id);
        assert(registry(front) =~= registry(entries).remove(id));
    } else {
        lemma_registry_remove(front, at);
        assert(entries.remove(at).drop_last() =~= front.remove(at));
        assert(entries.remove(at).last() == entries.last());
        assert(registry(entries.remove(at)) =~= registry(entries).remove(id));
    }
}

/// Every value of a registry is the handler of one of its entries.
proof fn lemma_registry_values(entries: Seq<PendingCallback>, id: Seq<char>)
    requires
        registry(entries).dom().contains(id),
    ensures
        exists|i: int|
            0 <= i < entries.len() && (#[trigger] entries[i]).id@ == id && entries[i].handler
                == registry(entries)[id],
    decreases entries.len(),
{
    if entries.len() > 0 {
        if entries.last().id@ == id {
            assert(entries[entries.len() - 1].id@ == id);
        } else {
            let front = entries.drop_last();
            lemma_registry_values(front, id);
            let i = choose|i: int|
                0 <= i < front.len() && (#[trigger] front[i]).id@ == id && front[i].handler
                    == registry(front)[id];
            assert(entries[i].id@ == id);
        }
    }
}

/// A session as a mathematical value.
pub struct SessionView {
    /// The identifier of the simulated device.
    pub instance: u32,
    /// The calls that await a result, by identifier.
    pub callbacks: Map<Seq<char>, ClientReturnHandlers>,
    /// The place of the viewed object.
    pub position: Seq<u64>,
    /// Its orientation, a quaternion `(x, y, z, w)`.
    pub orientation: Seq<u64>,
    /// The view matrix, row by row.
    pub view_matrix: Seq<u64>,
    /// The number of the next transaction.
    pub transactions: u32,
}

/// The state of one connection.
pub struct Session {
    instance: u32,
    callbacks: Vec<PendingCallback>,
    position: Position,
    view_matrix: [u64; 16],
    transactions: u32,
}

impl View for Session {
    type V = SessionView;

    closed spec fn view(&self) -> SessionView {
        SessionView {
            instance: self.instance,
            callbacks: registry(self.callbacks@),
            position: self.position.pos@,
            orientation: self.position.rot@,
            view_matrix: self.view_matrix@,
            transactions: self.transactions,
        }
    }
}

/// The state in which the session of `instance` starts: nothing awaited, the
/// first transaction ahead, the object at the origin and not turned, and a
/// view matrix of zeros.
pub open spec fn initial(instance: u32) -> SessionView {
    SessionView {
        instance,
        callbacks: Map::empty(),
        position: seq![0u64, 0u64, 0u64],
        orientation: seq![0u64, 0u64, 0u64, ONE],
        view_matrix: Seq::new(16, |i: int| 0u64),
        transactions: 1,
    }
}

/// What holds of every session: the spatial state has its fixed sizes, and
/// every awaited call has a handler that the server acts on.
pub open spec fn sound(session: SessionView) -> bool {
    &&& session.position.len() == 3
    &&& session.orientation.len() == 4
    &&& session.view_matrix.len() == 16
    &&& forall|id: Seq<char>| #[trigger]
        session.callbacks.dom().contains(id) ==> session.callbacks[id].implemented()
}

/// `rand`'s `Rng::gen` on the thread's generator, for a `u32`. Nothing is
/// claimed of the number drawn.
#[verifier::external_body]
fn random_instance() -> u32 {
    rand::thread_rng().gen()
}

impl Session {
    #[verifier::type_invariant]
    pub(crate) closed spec fn well_formed(self) -> bool {
        &&& distinct_ids(self.callbacks@)
        &&& forall|i: int|
            0 <= i < self.callbacks@.len() ==> (#[trigger] self.callbacks@[i]).handler.implemented()
    }

    /// Opens a session under a random instance identifier.
    pub fn new() -> (session: Session)
        ensures
            session@ == initial(session@.instance),
    {
        Session::with_instance(random_instance())
    }

    /// Opens a session under the given instance identifier.
    pub fn with_instance(instance: u32) -> (session: Session)
        ensures
            session@ == initial(instance),
    {
        let session = Session {
            instance,
            callbacks: Vec::new(),
            position: Position::new(),
            view_matrix: [0;16],
            transactions: 1,
        };
        assert(session.view_matrix@ =~= Seq::new(16, |i: int| 0u64));
        session
    }

    /// The identifier of the simulated device.
    pub fn instance(&self) -> (instance: u32)
        ensures
            instance == self@.instance,
    {
        self.instance
    }

    /// The number of the next transaction.
    pub fn transactions(&self) -> (transactions: u32)
        ensures
            transactions == self@.transactions,
    {
        self.transactions
    }

    /// The place and orientation of the viewed object.
    pub fn position(&self) -> (position: Position)
        ensures
            position.pos@ == self@.position,
            position.rot@ == self@.orientation,
    {
        self.position
    }

    /// The view matrix, row by row.
    pub fn view_matrix(&self) -> (matrix: [u64; 16])
        ensures
            matrix@ == self@.view_matrix,
    {
        self.view_matrix
    }

    /// Puts the viewed object at `position`. Nothing else changes.
    pub fn set_position(&mut self, position: Position)
        ensures
            final(self)@ == (SessionView {
                position: position.pos@,
                orientation: position.rot@,
                ..old(self)@
            }),
    {
        proof {
            use_type_invariant(&*self);
        }
        self.position = position;
    }

    /// Replaces the view matrix. Nothing else changes.
    pub fn set_view_matrix(&mut self, matrix: [u64; 16])
        ensures
            final(self)@ == (SessionView { view_matrix: matrix@, ..old(self)@ }),
    {
        proof {
            use_type_invariant(&*self);
        }
        self.view_matrix = matrix;
    }

    /// The handler under which the call `id` awaits its result, if it does.
    pub fn pending(&self, id: &str) -> (handler: Option<ClientReturnHandlers>)
        ensures
            handler == (if self@.callbacks.dom().contains(id@) {
                Some(self@.callbacks[id@])
            } else {
                None
            }),
            handler matches Some(h) ==> h.implemented(),
    {
        proof {
            use_type_invariant(self);
        }
        match self.find(id) {
            Some(at) => {
                proof {
                    lemma_registry_present(self.callbacks@, at as int);
                }
                Some(self.callbacks[at].handler)
            },
            None => {
                proof {
                    lemma_registry_absent(self.callbacks@, id@);
                }
                None
            },
        }
    }

    /// The number of calls that await a result.
    pub fn pending_count(&self) -> (count: usize)
        ensures
            count == self@.callbacks.dom().len(),
    {
        proof {
            use_type_invariant(self);
            lemma_registry_len(self.callbacks@);
        }
        self.callbacks.len()
    }

    /// Registers the call `id` as awaiting its result under `handler`. A call
    /// that awaited a result under the same identifier is replaced.
    pub(crate) fn register(&mut self, id: String, handler: ClientReturnHandlers)
        requires
            handler.implemented(),
        ensures
            final(self)@ == (SessionView {
                callbacks: old(self)@.callbacks.insert(id@, handler),
                ..old(self)@
            }),
    {
        proof {
            use_type_invariant(&*self);
        }
        let found = self.find(id.as_str());
        let mut entries: Vec<PendingCallback> = Vec::new();
        std::mem::swap(&mut self.callbacks, &mut entries);
        match found {
            Some(at) => {
                proof {
                    lemma_registry_remove(entries@, at as int);
                }
                let _ = entries.remove(at);
            },
            None => {},
        }
        proof {
            let entry = PendingCallback { id, handler };
            assert(entries@.push(entry).drop_last() =~= entries@);
            assert(registry(entries@.push(entry)) =~= old(self)@.callbacks.insert(id@, handler));
        }
        entries.push(PendingCallback { id, handler });
        std::mem::swap(&mut self.callbacks, &mut entries);
    }

    /// Takes the call `id` out of the registry and returns its handler, if it
    /// awaited a result.
    pub(crate) fn take(&mut self, id: &str) -> (handler: Option<ClientReturnHandlers>)
        ensures
            handler == (if old(self)@.callbacks.dom().contains(id@) {
                Some(old(self)@.callbacks[id@])
            } else {
                None
            }),
            handler matches Some(h) ==> h.implemented(),
            final(self)@ == (SessionView {
                callbacks: old(self)@.callbacks.remove(id@),
                ..old(self)@
            }),
    {
        proof {
            use_type_invariant(&*self);
        }
        match self.find(id) {
            Some(at) => {
                proof {
                    lemma_registry_present(self.callbacks@, at as int);
                    lemma_registry_remove(self.callbacks@, at as int);
                }
                let mut entries: Vec<PendingCallback> = Vec::new();
                std::mem::swap(&mut self.callbacks, &mut entries);
                let entry = entries.remove(at);
                std::mem::swap(&mut self.callbacks, &mut entries);
                Some(entry.handler)
            },
            None => {
                proof {
                    lemma_registry_absent(self.callbacks@, id@);
                    assert(self@.callbacks.remove(id@) =~= self@.callbacks);
                }
                None
            },
        }
    }

    /// Moves on to the next transaction.
    pub(crate) fn advance_transactions(&mut self)
        requires
            old(self)@.transactions < u32::MAX,
        ensures
            final(self)@ == (SessionView {
                transactions: (old(self)@.transactions + 1) as u32,
                ..old(self)@
            }),
    {
        proof {
            use_type_invariant(&*self);
        }
        self.transactions = self.transactions + 1;
    }

    /// Puts the viewed object at `place` and keeps its orientation.
    pub(crate) fn set_place(&mut self, place: [u64; 3])
        ensures
            final(self)@ == (SessionView { position: place@, ..old(self)@ }),
    {
        proof {
            use_type_invariant(&*self);
        }
        self.position.pos = place;
    }

    /// Every session is sound.
    pub(crate) proof fn lemma_sound(self)
        requires
            self.well_formed(),
        ensures
            sound(self@),
    {
        assert forall|id: Seq<char>| #[trigger]
            self@.callbacks.dom().contains(id) implies self@.callbacks[id].implemented() by {
            lemma_registry_values(self.callbacks@, id);
        }
    }

    /// The place of the entry for `id`.
    fn find(&self, id: &str) -> (r: Option<usize>)
        ensures
            match r {
                Some(at) => at < self.callbacks@.len() && self.callbacks@[at as int].id@ == id@,
                None => forall|i: int|
                    0 <= i < self.callbacks@.len() ==> (#[trigger] self.callbacks@[i]).id@ != id@,
            },
    {
        let wanted = String::from_str(id);
        let mut i: usize = 0;
        while i < self.callbacks.len()
            invariant
                i <= self.callbacks@.len(),
                wanted@ == id@,
                forall|k: int| 0 <= k < i ==> (#[trigger] self.callbacks@[k]).id@ != id@,
            decreases self.callbacks.len() - i,
        {
            if self.callbacks[i].id == wanted {
                return Some(i);
            }
            i += 1;
        }
        None
    }
}

/// Where identifiers are distinct, a registry has as many calls as entries.
proof fn lemma_registry_len(entries: Seq<PendingCallback>)
    requires
        distinct_ids(entries),
    ensures
        registry(entries).dom().finite(),
        registry(entries).dom().len() == entries.len(),
    decreases entries.len(),
{
    if entries.len() > 0 {
        lemma_registry_len(entries.drop_last());
        lemma_registry_absent(entries.drop_last(), entries.last().id@);
    }
}

} // verus!
