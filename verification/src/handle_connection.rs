use vstd::prelude::*;
use vstd::slice::{slice_subrange, slice_to_vec};

verus! {

/// Capacity of the transmit buffer in front of the GDB socket.
pub const TX_BUFFER_SIZE: usize = 256;

/// What one call of `send` on the GDB socket came back with.
#[derive(Clone, Copy, Debug, PartialEq, Eq, Structural)]
pub enum SendOutcome {
    /// `send` returned this count of bytes; 0 means the peer closed the connection.
    Sent(usize),
    /// `send` failed because a signal interrupted it; it is tried again.
    Interrupted,
    /// `send` failed for any other reason (the connection is broken).
    Failed,
}

/// What the caller does next while the context transmits.
#[derive(Clone, Copy, Debug, PartialEq, Eq, Structural)]
pub enum TxStep {
    /// Send `unsent()` on this socket and report the outcome to `on_send`.
    Send(i32),
    /// The operation is over: `true` when everything it had to do succeeded.
    Done(bool),
}

/// What follows once the bytes being written have all gone out (model).
#[verifier::ext_equal]
pub enum AfterView {
    Finish,
    WriteDirect(Seq<u8>),
    BufferData(Seq<u8>),
}

/// A write in progress (model): the bytes not sent yet, and what follows.
#[verifier::ext_equal]
pub struct TransferView {
    pub unsent: Seq<u8>,
    pub after: AfterView,
}

/// Model of the transmit context: the socket (none once it failed or was
/// stopped), the bytes waiting in the buffer, and the write in progress.
#[verifier::ext_equal]
pub struct ContextView {
    pub fd: Option<i32>,
    pub buffered: Seq<u8>,
    pub transfer: Option<TransferView>,
}

impl AfterView {
    pub open spec fn held(self) -> Seq<u8> {
        match self {
            AfterView::Finish => Seq::empty(),
            AfterView::WriteDirect(d) => d,
            AfterView::BufferData(d) => d,
        }
    }

    pub open spec fn wf(self) -> bool {
        match self {
            AfterView::Finish => true,
            AfterView::WriteDirect(d) => d.len() >= TX_BUFFER_SIZE,
            AfterView::BufferData(d) => d.len() < TX_BUFFER_SIZE,
        }
    }
}

impl ContextView {
    /// The buffer never holds a full `TX_BUFFER_SIZE` bytes; a write in
    /// progress has bytes left, a socket to go to, and an empty buffer.
    pub open spec fn wf(self) -> bool {
        &&& self.buffered.len() < TX_BUFFER_SIZE
        &&& match self.transfer {
            None => true,
            Some(t) => {
                &&& self.fd is Some
                &&& t.unsent.len() > 0
                &&& self.buffered.len() == 0
                &&& t.after.wf()
            },
        }
    }

    /// Every byte accepted and not yet handed to the socket, in order.
    pub open spec fn pending(self) -> Seq<u8> {
        match self.transfer {
            None => self.buffered,
            Some(t) => t.unsent + t.after.held() + self.buffered,
        }
    }

    pub open spec fn with_buffered(self, b: Seq<u8>) -> ContextView {
        ContextView { buffered: b, ..self }
    }

    pub open spec fn idle(self) -> ContextView {
        ContextView { transfer: None, ..self }
    }

    pub open spec fn broken(self) -> ContextView {
        ContextView { fd: None, transfer: None, ..self }
    }
}

/// Writes `d` straight to the socket (the context holds no write).
pub open spec fn spec_direct_write(v: ContextView, d: Seq<u8>) -> (ContextView, TxStep) {
    match v.fd {
        None => (v, TxStep::Done(false)),
        Some(fd) => if d.len() == 0 {
            (v, TxStep::Done(true))
        } else {
            (
                ContextView {
                    transfer: Some(TransferView { unsent: d, after: AfterView::Finish }),
                    ..v
                },
                TxStep::Send(fd),
            )
        },
    }
}

/// A write has gone out completely: carry on with what follows it.
pub open spec fn spec_after_write(v: ContextView, after: AfterView) -> (ContextView, TxStep) {
    match after {
        AfterView::Finish => (v, TxStep::Done(true)),
        AfterView::WriteDirect(d) => spec_direct_write(v, d),
        AfterView::BufferData(d) => (v.with_buffered(d), TxStep::Done(true)),
    }
}

/// Starts writing `bytes` to the socket, to be followed by `after`.
pub open spec fn spec_begin_write(v: ContextView, bytes: Seq<u8>, after: AfterView) -> (
    ContextView,
    TxStep,
) {
    match v.fd {
        None => (v.idle(), TxStep::Done(false)),
        Some(fd) => if bytes.len() == 0 {
            spec_after_write(v.idle(), after)
        } else {
            (
                ContextView { transfer: Some(TransferView { unsent: bytes, after }), ..v },
                TxStep::Send(fd),
            )
        },
    }
}

/// Pushing `data`: data of a buffer's size or more is written directly
/// after what is buffered; data that does not fit beside what is buffered
/// is buffered once the buffer was written out; other data is buffered.
pub open spec fn spec_push(v: ContextView, data: Seq<u8>) -> (ContextView, TxStep) {
    if data.len() >= TX_BUFFER_SIZE {
        if v.buffered.len() != 0 {
            spec_begin_write(
                v.with_buffered(Seq::empty()),
                v.buffered,
                AfterView::WriteDirect(data),
            )
        } else {
            spec_direct_write(v, data)
        }
    } else if v.buffered.len() + data.len() >= TX_BUFFER_SIZE {
        spec_begin_write(v.with_buffered(Seq::empty()), v.buffered, AfterView::BufferData(data))
    } else {
        (v.with_buffered(v.buffered + data), TxStep::Done(true))
    }
}

/// Flushing: whatever is buffered is written out and the buffer emptied.
pub open spec fn spec_flush(v: ContextView) -> (ContextView, TxStep) {
    if v.buffered.len() != 0 {
        spec_begin_write(v.with_buffered(Seq::empty()), v.buffered, AfterView::Finish)
    } else {
        (v, TxStep::Done(true))
    }
}

/// The outcome of one `send` of the write in progress.
pub open spec fn spec_on_send(v: ContextView, outcome: SendOutcome) -> (ContextView, TxStep) {
    let t = v.transfer->Some_0;
    match outcome {
        SendOutcome::Sent(n) => if n == 0 {
            (v.broken(), TxStep::Done(false))
        } else if n < t.unsent.len() {
            (
                ContextView {
                    transfer: Some(TransferView { unsent: t.unsent.skip(n as int), after: t.after }),
                    ..v
                },
                TxStep::Send(v.fd->Some_0),
            )
        } else {
            spec_after_write(v.idle(), t.after)
        },
        SendOutcome::Interrupted => (v, TxStep::Send(v.fd->Some_0)),
        SendOutcome::Failed => (v.broken(), TxStep::Done(false)),
    }
}

/// The raw buffer after an operation: the buffered bytes, and past them
/// whatever the buffer held before; no byte past the buffered ones is written.
pub open spec fn keeps_raw(new_raw: Seq<u8>, buffered: Seq<u8>, old_raw: Seq<u8>) -> bool {
    &&& new_raw.len() == old_raw.len()
    &&& forall|i: int|
        0 <= i < new_raw.len() ==> #[trigger] new_raw[i] == (if i < buffered.len() {
            buffered[i]
        } else {
            old_raw[i]
        })
}

/// What follows a write in progress.
enum After {
    Finish,
    WriteDirect(Vec<u8>),
    BufferData(Vec<u8>),
}

impl View for After {
    type V = AfterView;

    closed spec fn view(&self) -> AfterView {
        match self {
            After::Finish => AfterView::Finish,
            After::WriteDirect(d) => AfterView::WriteDirect(d@),
            After::BufferData(d) => AfterView::BufferData(d@),
        }
    }
}

struct Transfer {
    unsent: Vec<u8>,
    after: After,
}

/// The transmit side of the GDB connection: the socket and a buffer that
/// gathers small writes. Operations that reach the socket return
/// `TxStep::Send`; the caller performs the `send` and reports its
/// outcome to `on_send` until `TxStep::Done` comes back.
pub struct LocalContext {
    fd: Option<i32>,
    tx_index: u32,
    tx_buffer: Vec<u8>,
    transfer: Option<Transfer>,
}

impl View for LocalContext {
    type V = ContextView;

    closed spec fn view(&self) -> ContextView {
        ContextView {
            fd: self.fd,
            buffered: self.tx_buffer@.subrange(0, self.tx_index as int),
            transfer: match self.transfer {
                None => None,
                Some(t) => Some(TransferView { unsent: t.unsent@, after: t.after@ }),
            },
        }
    }
}

impl LocalContext {
    /// All the bytes of the transmit buffer, including those past the
    /// buffered ones, which are never sent.
    pub closed spec fn raw(&self) -> Seq<u8> {
        self.tx_buffer@
    }

    /// The context is well formed: its buffer has its full size, the index
    /// lies inside it, and its model is well formed.
    pub closed spec fn inv(&self) -> bool {
        &&& self.tx_buffer@.len() == TX_BUFFER_SIZE
        &&& self.tx_index < TX_BUFFER_SIZE
        &&& self@.wf()
    }

    /// A well formed context has a well formed model, so the laws over the
    /// model apply to it; its raw buffer has the buffer's full size.
    pub proof fn lemma_inv_wf(&self)
        requires
            self.inv(),
        ensures
            self@.wf(),
            self.raw().len() == TX_BUFFER_SIZE,
    {
    }

    /// A context with no socket and an empty buffer.
    pub fn new() -> (c: LocalContext)
        ensures
            c.inv(),
            c@ == (ContextView { fd: None, buffered: Seq::empty(), transfer: None }),
            c.raw() == Seq::new(TX_BUFFER_SIZE as nat, |i: int| 0u8),
    {
        let c = LocalContext {
            fd: None,
            tx_index: 0,
            tx_buffer: vec![0u8; TX_BUFFER_SIZE],
            transfer: None,
        };
        assert(c@.buffered =~= Seq::<u8>::empty());
        assert(c.raw() =~= Seq::new(TX_BUFFER_SIZE as nat, |i: int| 0u8));
        c
    }

    /// Whether a write is in progress (between a `Send` and its `Done`).
    pub fn in_transfer(&self) -> (b: bool)
        ensures
            b == self@.transfer is Some,
    {
        self.transfer.is_some()
    }

    /// Forgets the socket and drops whatever is buffered.
    pub fn stop(&mut self)
        requires
            old(self).inv(),
            old(self)@.transfer is None,
        ensures
            final(self).inv(),
            keeps_raw(final(self).raw(), final(self)@.buffered, old(self).raw()),
            final(self)@ == (ContextView { fd: None, buffered: Seq::empty(), transfer: None }),
    {
        self.tx_index = 0;
        self.fd = None;
        assert(self@.buffered =~= Seq::<u8>::empty());
    }

    /// Attaches the socket `socket_id`, with an empty buffer.
    pub fn start(&mut self, socket_id: i32)
        requires
            old(self).inv(),
            old(self)@.transfer is None,
        ensures
            final(self).inv(),
            keeps_raw(final(self).raw(), final(self)@.buffered, old(self).raw()),
            final(self)@ == (ContextView {
                fd: Some(socket_id),
                buffered: Seq::empty(),
                transfer: None,
            }),
    {
        self.fd = Some(socket_id);
        self.tx_index = 0;
        assert(self@.buffered =~= Seq::<u8>::empty());
    }

    /// The bytes of the write in progress that the socket has not taken yet.
    pub fn unsent(&self) -> (s: &[u8])
        requires
            self@.transfer is Some,
        ensures
            s@ == self@.transfer->Some_0.unsent,
    {
        match &self.transfer {
            Some(t) => t.unsent.as_slice(),
            None => {
                assert(false);
                &[]
            },
        }
    }

    /// Appends `data` to the buffer, which has room for it.
    fn append(&mut self, data: &[u8])
        requires
            old(self).inv(),
            old(self)@.transfer is None,
            old(self)@.buffered.len() + data@.len() < TX_BUFFER_SIZE,
        ensures
            final(self).inv(),
            keeps_raw(final(self).raw(), final(self)@.buffered, old(self).raw()),
            final(self)@ == old(self)@.with_buffered(old(self)@.buffered + data@),
    {
        let start = self.tx_index as usize;
        let ghost before = self.tx_buffer@;
        let mut i: usize = 0;
        while i < data.len()
            invariant
                self.tx_buffer@.len() == TX_BUFFER_SIZE,
                self.tx_index == start,
                start + data@.len() < TX_BUFFER_SIZE,
                i <= data@.len(),
                self.fd == old(self).fd,
                self.transfer is None,
                forall|k: int| 0 <= k < start ==> self.tx_buffer@[k] == before[k],
                forall|k: int| 0 <= k < i ==> self.tx_buffer@[start + k] == data@[k],
                forall|k: int| start + i <= k < TX_BUFFER_SIZE ==> self.tx_buffer@[k] == before[k],
                before == old(self).tx_buffer@,
                start == old(self).tx_index,
            decreases data@.len() - i,
        {
            self.tx_buffer[start + i] = data[i];
            i = i + 1;
        }
        self.tx_index = (start + data.len()) as u32;
        assert(self@.buffered =~= old(self)@.buffered + data@);
    }

    /// Takes the buffered bytes out of the buffer.
    fn take_buffered(&mut self) -> (b: Vec<u8>)
        requires
            old(self).inv(),
            old(self)@.transfer is None,
        ensures
            final(self).inv(),
            keeps_raw(final(self).raw(), final(self)@.buffered, old(self).raw()),
            b@ == old(self)@.buffered,
            final(self)@ == old(self)@.with_buffered(Seq::empty()),
    {
        let b = slice_to_vec(slice_subrange(self.tx_buffer.as_slice(), 0, self.tx_index as usize));
        self.tx_index = 0;
        assert(self@.buffered =~= Seq::<u8>::empty());
        b
    }

    fn direct_write(&mut self, d: Vec<u8>) -> (r: TxStep)
        requires
            old(self).inv(),
            old(self)@.transfer is None,
            old(self)@.buffered.len() == 0,
            d@.len() >= TX_BUFFER_SIZE,
        ensures
            final(self).inv(),
            keeps_raw(final(self).raw(), final(self)@.buffered, old(self).raw()),
            (final(self)@, r) == spec_direct_write(old(self)@, d@),
    {
        match self.fd {
            None => TxStep::Done(false),
            Some(fd) => {
                self.transfer = Some(Transfer { unsent: d, after: After::Finish });
                TxStep::Send(fd)
            },
        }
    }

    fn after_write(&mut self, after: After) -> (r: TxStep)
        requires
            old(self).inv(),
            old(self)@.transfer is None,
            old(self)@.buffered.len() == 0,
            after@.wf(),
        ensures
            final(self).inv(),
            keeps_raw(final(self).raw(), final(self)@.buffered, old(self).raw()),
            (final(self)@, r) == spec_after_write(old(self)@, after@),
    {
        match after {
            After::Finish => TxStep::Done(true),
            After::WriteDirect(d) => self.direct_write(d),
            After::BufferData(d) => {
                let ghost before = self@;
                self.append(d.as_slice());
                assert(self@ =~= before.with_buffered(d@));
                TxStep::Done(true)
            },
        }
    }

    fn begin_write(&mut self, bytes: Vec<u8>, after: After) -> (r: TxStep)
        requires
            old(self).inv(),
            old(self)@.transfer is None,
            old(self)@.buffered.len() == 0,
            bytes@.len() > 0,
            after@.wf(),
        ensures
            final(self).inv(),
            keeps_raw(final(self).raw(), final(self)@.buffered, old(self).raw()),
            (final(self)@, r) == spec_begin_write(old(self)@, bytes@, after@),
    {
        match self.fd {
            None => TxStep::Done(false),
            Some(fd) => {
                self.transfer = Some(Transfer { unsent: bytes, after });
                TxStep::Send(fd)
            },
        }
    }

    /// Queues `data` for the socket, as the transmit path of the GDB stub
    /// does for each packet it sends.
    pub fn push(&mut self, data: &[u8]) -> (r: TxStep)
        requires
            old(self).inv(),
            old(self)@.transfer is None,
        ensures
            final(self).inv(),
            keeps_raw(final(self).raw(), final(self)@.buffered, old(self).raw()),
            (final(self)@, r) == spec_push(old(self)@, data@),
    {
        if data.len() >= TX_BUFFER_SIZE {
            if self.tx_index != 0 {
                let b = self.take_buffered();
                self.begin_write(b, After::WriteDirect(slice_to_vec(data)))
            } else {
                self.direct_write(slice_to_vec(data))
            }
        } else if self.tx_index as usize + data.len() >= TX_BUFFER_SIZE {
            let b = self.take_buffered();
            self.begin_write(b, After::BufferData(slice_to_vec(data)))
        } else {
            self.append(data);
            TxStep::Done(true)
        }
    }

    /// Writes out whatever is buffered and empties the buffer.
    pub fn flush(&mut self) -> (r: TxStep)
        requires
            old(self).inv(),
            old(self)@.transfer is None,
        ensures
            final(self).inv(),
            keeps_raw(final(self).raw(), final(self)@.buffered, old(self).raw()),
            (final(self)@, r) == spec_flush(old(self)@),
    {
        if self.tx_index != 0 {
            let b = self.take_buffered();
            self.begin_write(b, After::Finish)
        } else {
            TxStep::Done(true)
        }
    }

    /// Takes the outcome of sending `unsent()`; a socket that reports more
    /// bytes than it was given is not a socket this accepts.
    pub fn on_send(&mut self, outcome: SendOutcome) -> (r: TxStep)
        requires
            old(self).inv(),
            old(self)@.transfer is Some,
            outcome matches SendOutcome::Sent(n) ==> n <= old(self)@.transfer->Some_0.unsent.len(),
        ensures
            final(self).inv(),
            keeps_raw(final(self).raw(), final(self)@.buffered, old(self).raw()),
            (final(self)@, r) == spec_on_send(old(self)@, outcome),
    {
        let fd = match self.fd {
            Some(fd) => fd,
            None => {
                assert(false);
                0
            },
        };
        match outcome {
            SendOutcome::Sent(n) => {
                if n == 0 {
                    self.fd = None;
                    self.transfer = None;
                    TxStep::Done(false)
                } else {
                    let t = self.transfer.take();
                    match t {
                        Some(t) => {
                            let mut unsent = t.unsent;
                            if n < unsent.len() {
                                let ghost whole = unsent@;
                                let rest = unsent.split_off(n);
                                assert(rest@ =~= whole.skip(n as int));
                                self.transfer = Some(Transfer { unsent: rest, after: t.after });
                                TxStep::Send(fd)
                            } else {
                                self.after_write(t.after)
                            }
                        },
                        None => {
                            assert(false);
                            TxStep::Done(false)
                        },
                    }
                }
            },
            SendOutcome::Interrupted => TxStep::Send(fd),
            SendOutcome::Failed => {
                self.fd = None;
                self.transfer = None;
                TxStep::Done(false)
            },
        }
    }
}

} // verus!

verus! {

/// Pushing and flushing keep the model well formed: in particular the
/// buffer never fills up, and a write in progress has bytes left to send.
pub proof fn lemma_push_flush_keep_wf(v: ContextView, data: Seq<u8>)
    requires
        v.wf(),
        v.transfer is None,
    ensures
        spec_push(v, data).0.wf(),
        spec_flush(v).0.wf(),
{
}

/// Each outcome of a `send` keeps the model well formed.
pub proof fn lemma_on_send_keeps_wf(v: ContextView, outcome: SendOutcome)
    requires
        v.wf(),
        v.transfer is Some,
        outcome matches SendOutcome::Sent(n) ==> n <= v.transfer->Some_0.unsent.len(),
    ensures
        spec_on_send(v, outcome).0.wf(),
{
}

/// Every step asks for a `send` exactly when a write is left in progress,
/// and then on the context's own socket; a finished step leaves none.
pub proof fn lemma_step_shape(v: ContextView, data: Seq<u8>, outcome: SendOutcome)
    requires
        v.wf(),
    ensures
        v.transfer is None ==> ({
            let (w, r) = spec_push(v, data);
            &&& r is Send <==> w.transfer is Some
            &&& r matches TxStep::Send(fd) ==> w.fd == Some(fd)
        }),
        v.transfer is None ==> ({
            let (w, r) = spec_flush(v);
            &&& r is Send <==> w.transfer is Some
            &&& r matches TxStep::Send(fd) ==> w.fd == Some(fd)
        }),
        v.transfer is Some && (outcome matches SendOutcome::Sent(n) ==> n
            <= v.transfer->Some_0.unsent.len()) ==> ({
            let (w, r) = spec_on_send(v, outcome);
            &&& r is Send <==> w.transfer is Some
            &&& r matches TxStep::Send(fd) ==> w.fd == Some(fd)
        }),
{
}

/// With a live socket nothing pushed is lost or reordered: what was
/// pending before, followed by the new data, is what is pending after.
pub proof fn lemma_push_conserves_bytes(v: ContextView, data: Seq<u8>)
    requires
        v.wf(),
        v.transfer is None,
        v.fd is Some,
    ensures
        spec_push(v, data).0.pending() == v.pending() + data,
{
    assert(spec_push(v, data).0.pending() =~= v.pending() + data);
}

/// Flushing a context with a live socket keeps every pending byte.
pub proof fn lemma_flush_conserves_bytes(v: ContextView)
    requires
        v.wf(),
        v.transfer is None,
        v.fd is Some,
    ensures
        spec_flush(v).0.pending() == v.pending(),
{
    assert(spec_flush(v).0.pending() =~= v.pending());
}

/// The bytes a `send` took are the first pending bytes, and the rest stay
/// pending in order; an interrupted `send` changes nothing.
pub proof fn lemma_send_delivers_in_order(v: ContextView, n: usize)
    requires
        v.wf(),
        v.transfer is Some,
        0 < n <= v.transfer->Some_0.unsent.len(),
    ensures
        v.pending() == v.transfer->Some_0.unsent.take(n as int) + spec_on_send(
            v,
            SendOutcome::Sent(n),
        ).0.pending(),
        spec_on_send(v, SendOutcome::Interrupted) == (v, TxStep::Send(v.fd->Some_0)),
{
    let t = v.transfer->Some_0;
    let w = spec_on_send(v, SendOutcome::Sent(n)).0;
    if n < t.unsent.len() {
        assert(t.unsent =~= t.unsent.take(n as int) + t.unsent.skip(n as int));
        assert(v.pending() =~= t.unsent.take(n as int) + w.pending());
    } else {
        assert(t.unsent.take(n as int) =~= t.unsent);
        assert(v.pending() =~= t.unsent.take(n as int) + w.pending());
    }
}

/// A broken connection is dropped: after a failed `send`, or one that
/// reports the peer closed, the socket is forgotten and the operation
/// fails; from then on no operation asks for a `send` until a new socket
/// is started.
pub proof fn lemma_failure_forgets_socket(v: ContextView, data: Seq<u8>)
    requires
        v.wf(),
    ensures
        v.transfer is Some ==> spec_on_send(v, SendOutcome::Failed) == (
            v.broken(),
            TxStep::Done(false),
        ),
        v.transfer is Some ==> spec_on_send(v, SendOutcome::Sent(0)) == (
            v.broken(),
            TxStep::Done(false),
        ),
        v.fd is None && v.transfer is None ==> spec_push(v, data).1 is Done && spec_flush(v).1 is Done,
{
}

/// The bytes the socket takes from the write in progress on `outcome`.
pub open spec fn sent_bytes(v: ContextView, outcome: SendOutcome) -> Seq<u8> {
    match outcome {
        SendOutcome::Sent(n) => v.transfer->Some_0.unsent.take(n as int),
        _ => Seq::empty(),
    }
}

/// Drives `step` with the `send` outcomes `outcomes`, one per `Send`, as the
/// caller does, until the step is `Done` or the outcomes run out: the
/// context and step reached, and the bytes the socket took, in order.
pub open spec fn spec_run(v: ContextView, step: TxStep, outcomes: Seq<SendOutcome>) -> (
    ContextView,
    TxStep,
    Seq<u8>,
)
    decreases outcomes.len(),
{
    if outcomes.len() == 0 || step is Done {
        (v, step, Seq::empty())
    } else {
        let (w, r) = spec_on_send(v, outcomes[0]);
        let (x, t, d) = spec_run(w, r, outcomes.skip(1));
        (x, t, sent_bytes(v, outcomes[0]) + d)
    }
}

/// The outcomes of a run are ones a socket can give: no `send` reports
/// more bytes than it was handed.
pub open spec fn valid_run(v: ContextView, step: TxStep, outcomes: Seq<SendOutcome>) -> bool
    decreases outcomes.len(),
{
    if outcomes.len() == 0 || step is Done {
        true
    } else {
        &&& (outcomes[0] matches SendOutcome::Sent(n) ==> n <= v.transfer->Some_0.unsent.len())
        &&& valid_run(spec_on_send(v, outcomes[0]).0, spec_on_send(v, outcomes[0]).1, outcomes.skip(1))
    }
}

/// A step agrees with the context it came with: `Send` exactly while a
/// write is in progress, and on the context's socket.
pub open spec fn step_agrees(v: ContextView, step: TxStep) -> bool {
    &&& (step is Send <==> v.transfer is Some)
    &&& (step matches TxStep::Send(fd) ==> v.fd == Some(fd))
}

/// Nothing is buffered, and the write in progress (if any) does not end by
/// buffering data.
pub open spec fn buffer_stays_empty(v: ContextView) -> bool {
    &&& v.buffered.len() == 0
    &&& !(v.transfer matches Some(t) && t.after is BufferData)
}

/// Over a whole run of `send` outcomes, nothing is lost or reordered until
/// the socket fails: the bytes the socket took, followed by what is still
/// pending, are what was pending at the start. A run that fails leaves no
/// socket and no write in progress.
pub proof fn lemma_run_delivers_in_order(v: ContextView, step: TxStep, outcomes: Seq<SendOutcome>)
    requires
        v.wf(),
        step_agrees(v, step),
        step != TxStep::Done(false),
        valid_run(v, step, outcomes),
    ensures
        ({
            let (x, t, d) = spec_run(v, step, outcomes);
            &&& x.wf()
            &&& step_agrees(x, t)
            &&& t != TxStep::Done(false) ==> d + x.pending() == v.pending()
            &&& t == TxStep::Done(false) ==> x.fd is None && x.transfer is None
            &&& buffer_stays_empty(v) ==> buffer_stays_empty(x)
        }),
    decreases outcomes.len(),
{
    if outcomes.len() == 0 || step is Done {
        assert(Seq::<u8>::empty() + v.pending() =~= v.pending());
    } else {
        let o = outcomes[0];
        let (w, r) = spec_on_send(v, o);
        lemma_on_send_keeps_wf(v, o);
        lemma_step_shape(v, Seq::empty(), o);
        let t0 = v.transfer->Some_0;
        let (x, t, d) = spec_run(w, r, outcomes.skip(1));
        if r == TxStep::Done(false) {
            assert(outcomes.skip(1).len() == 0 || r is Done);
            assert(w.fd is None && w.transfer is None);
        } else {
            lemma_run_delivers_in_order(w, r, outcomes.skip(1));
            match o {
                SendOutcome::Sent(n) => {
                    lemma_send_delivers_in_order(v, n);
                    assert(sent_bytes(v, o) + d + x.pending() =~= sent_bytes(v, o) + (d
                        + x.pending()));
                },
                SendOutcome::Interrupted => {
                    assert(sent_bytes(v, o) + d =~= d);
                },
                SendOutcome::Failed => {},
            }
            assert(spec_run(v, step, outcomes) == (x, t, sent_bytes(v, o) + d));
        }
    }
}

/// A whole `push` on a live socket, followed by the `send` outcomes of the
/// run: when it succeeds, the bytes the socket took followed by what stays
/// buffered are the bytes buffered before followed by `data`; data of a
/// buffer's size or more is never buffered; when it fails, the socket is
/// forgotten.
pub proof fn lemma_push_run(v: ContextView, data: Seq<u8>, outcomes: Seq<SendOutcome>)
    requires
        v.wf(),
        v.transfer is None,
        v.fd is Some,
        valid_run(spec_push(v, data).0, spec_push(v, data).1, outcomes),
    ensures
        ({
            let (w, r) = spec_push(v, data);
            let (x, t, d) = spec_run(w, r, outcomes);
            &&& r != TxStep::Done(false)
            &&& t == TxStep::Done(true) ==> x.transfer is None && d + x.buffered == v.buffered
                + data
            &&& t == TxStep::Done(false) ==> x.fd is None && x.transfer is None
            &&& t is Send ==> d + x.pending() == v.buffered + data
            &&& data.len() >= TX_BUFFER_SIZE ==> w.buffered.len() == 0 && (t is Done ==> x.buffered.len()
                == 0)
        }),
{
    let (w, r) = spec_push(v, data);
    lemma_push_flush_keep_wf(v, data);
    lemma_step_shape(v, data, SendOutcome::Interrupted);
    lemma_push_conserves_bytes(v, data);
    lemma_run_delivers_in_order(w, r, outcomes);
    if data.len() >= TX_BUFFER_SIZE {
        assert(buffer_stays_empty(w));
    }
}

/// A whole `flush` on a live socket, followed by the `send` outcomes of the
/// run: when it succeeds, the socket took exactly the bytes that were
/// buffered and nothing stays buffered; when it fails, the socket is
/// forgotten.
pub proof fn lemma_flush_run(v: ContextView, outcomes: Seq<SendOutcome>)
    requires
        v.wf(),
        v.transfer is None,
        v.fd is Some,
        valid_run(spec_flush(v).0, spec_flush(v).1, outcomes),
    ensures
        ({
            let (w, r) = spec_flush(v);
            let (x, t, d) = spec_run(w, r, outcomes);
            &&& r != TxStep::Done(false)
            &&& t == TxStep::Done(true) ==> x.transfer is None && x.buffered.len() == 0 && d
                == v.buffered
            &&& t == TxStep::Done(false) ==> x.fd is None && x.transfer is None
        }),
{
    let (w, r) = spec_flush(v);
    lemma_push_flush_keep_wf(v, Seq::empty());
    lemma_step_shape(v, Seq::empty(), SendOutcome::Interrupted);
    lemma_flush_conserves_bytes(v);
    lemma_run_delivers_in_order(w, r, outcomes);
    assert(buffer_stays_empty(w));
    let (x, t, d) = spec_run(w, r, outcomes);
    if t == TxStep::Done(true) {
        assert(d + x.buffered == d);
    }
}

/// A `send` that takes bytes never fails the operation: the socket is
/// kept, and the operation either goes on or ends in success.
pub proof fn lemma_taken_bytes_never_fail(v: ContextView, n: usize)
    requires
        v.wf(),
        v.transfer is Some,
        0 < n <= v.transfer->Some_0.unsent.len(),
    ensures
        spec_on_send(v, SendOutcome::Sent(n)).0.fd == v.fd,
        spec_on_send(v, SendOutcome::Sent(n)).1 != TxStep::Done(false),
        spec_on_send(v, SendOutcome::Interrupted).0.fd == v.fd,
{
}

/// A run in which every `send` takes some bytes never fails and keeps the
/// socket: a `push` or `flush` on a live socket whose bytes all go out
/// ends in success.
pub proof fn lemma_positive_sends_succeed(v: ContextView, step: TxStep, outcomes: Seq<SendOutcome>)
    requires
        v.wf(),
        step_agrees(v, step),
        step != TxStep::Done(false),
        valid_run(v, step, outcomes),
        forall|i: int| 0 <= i < outcomes.len() ==> (#[trigger] outcomes[i] matches SendOutcome::Sent(
            n,
        ) && n > 0),
    ensures
        spec_run(v, step, outcomes).1 != TxStep::Done(false),
        spec_run(v, step, outcomes).0.fd == v.fd,
    decreases outcomes.len(),
{
    if outcomes.len() == 0 || step is Done {
    } else {
        let o = outcomes[0];
        let n = o->Sent_0;
        assert(o matches SendOutcome::Sent(k) && k > 0);
        let (w, r) = spec_on_send(v, o);
        lemma_taken_bytes_never_fail(v, n);
        lemma_on_send_keeps_wf(v, o);
        lemma_step_shape(v, Seq::empty(), o);
        let rest = outcomes.skip(1);
        assert forall|i: int| 0 <= i < rest.len() implies (#[trigger] rest[i] matches SendOutcome::Sent(
            k,
        ) && k > 0) by {
            assert(rest[i] == outcomes[i + 1]);
        }
        lemma_positive_sends_succeed(w, r, rest);
    }
}

/// A `push` reports success at once only when it kept every byte: the data
/// then stands in the buffer behind what was there. It asks for a `send`
/// only on the context's socket. Without a socket it succeeds exactly when
/// the data fits beside what is buffered, and fails otherwise.
pub proof fn lemma_push_success_keeps_data(v: ContextView, data: Seq<u8>)
    requires
        v.wf(),
        v.transfer is None,
    ensures
        spec_push(v, data).1 == TxStep::Done(true) ==> spec_push(v, data).0.transfer is None
            && spec_push(v, data).0.buffered == v.buffered + data && spec_push(v, data).0.fd
            == v.fd,
        spec_push(v, data).1 matches TxStep::Send(fd) ==> v.fd == Some(fd),
        v.fd is None ==> (spec_push(v, data).1 == TxStep::Done(true) <==> v.buffered.len()
            + data.len() < TX_BUFFER_SIZE),
        v.fd is None ==> (spec_push(v, data).1 is Done),
{
}

/// A `flush` succeeds at once exactly when nothing is buffered, and then
/// changes nothing; with bytes buffered it asks for a `send` on the
/// context's socket, or fails when there is none.
pub proof fn lemma_flush_success_only_when_empty(v: ContextView)
    requires
        v.wf(),
        v.transfer is None,
    ensures
        spec_flush(v).1 == TxStep::Done(true) <==> v.buffered.len() == 0,
        spec_flush(v).1 == TxStep::Done(true) ==> spec_flush(v).0 == v,
        v.buffered.len() != 0 && v.fd is None ==> spec_flush(v).1 == TxStep::Done(false),
        spec_flush(v).1 matches TxStep::Send(fd) ==> v.fd == Some(fd),
{
}

/// What the GDB read loop got from the socket.
#[derive(Clone, Copy, Debug, PartialEq, Eq, Structural)]
pub enum ReadOutcome {
    /// The read returned this count of bytes; 0 means the client closed.
    Bytes(usize),
    /// No data came within the read time-out.
    TimedOut,
    /// Any other error of the connection.
    Error,
}

/// What the GDB read loop does with it.
#[derive(Clone, Copy, Debug, PartialEq, Eq, Structural)]
pub enum GdbAction {
    /// Hand this many bytes to the GDB stub, then poll the target.
    Feed(usize),
    /// Only poll the target, whose halt must be reported while it runs.
    Poll,
    /// The session is over: report `Detach` and leave the loop.
    Detach,
}

/// The reaction of the GDB read loop to one read.
pub fn on_read(outcome: ReadOutcome) -> (a: GdbAction)
    ensures
        a == (match outcome {
            ReadOutcome::Bytes(n) => if n > 0 {
                GdbAction::Feed(n)
            } else {
                GdbAction::Detach
            },
            ReadOutcome::TimedOut => GdbAction::Poll,
            ReadOutcome::Error => GdbAction::Detach,
        }),
{
    match outcome {
        ReadOutcome::Bytes(n) => if n > 0 {
            GdbAction::Feed(n)
        } else {
            GdbAction::Detach
        },
        ReadOutcome::TimedOut => GdbAction::Poll,
        ReadOutcome::Error => GdbAction::Detach,
    }
}

} // verus!
