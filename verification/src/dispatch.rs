//! Routing of decoded messages against a session.
//!
//! [`step`] says, for every session, message and supply of fresh identifiers,
//! what the session becomes and what the server does. [`dispatch`] computes
//! exactly that. [`handle_msg`] decodes a frame, draws the identifiers and
//! dispatches.

use crate::ident::{generate_id, is_identifier};
use crate::json::{leading_numbers, leading_scalars, parsed, scalars, trees, Json, JsonTree};
use crate::laws::law_sound_kept;
use crate::message::{decode, parse_msg, DecodeError, Message, MessageType, MessageView};
use crate::motion::MotionSample;
use crate::session::{sound, ClientReturnHandlers, Session, SessionView};
use crate::wire::{
    build_read_call, build_result, build_update_call, connexion_object, connexion_text, decimal,
    decimal_string, instance_object, instance_text, read_call_text, result_text, update_call_text,
};
use vstd::prelude::*;

verus! {

/// Something for the server to do, in the order given.
#[derive(Debug, PartialEq, Eq)]
pub enum Effect {
    /// Send this text frame to the client.
    Send(String),
    /// Move the viewed object by this sample, in world axes, and compute the
    /// view matrix anew from where it then stands.
    MoveObject(MotionSample),
    /// Send the view matrix as it then is: the update of the key
    /// `view.affine`, under this identifier, to the matrix's sixteen numbers.
    SendViewMatrix(String),
}

/// An effect as a mathematical value.
pub enum EffectView {
    Send(Seq<char>),
    MoveObject(MotionSample),
    SendViewMatrix(Seq<char>),
}

impl View for Effect {
    type V = EffectView;

    open spec fn view(&self) -> EffectView {
        match self {
            Effect::Send(frame) => EffectView::Send(frame@),
            Effect::MoveObject(sample) => EffectView::MoveObject(*sample),
            Effect::SendViewMatrix(id) => EffectView::SendViewMatrix(id@),
        }
    }
}

/// Why a frame had no effect.
#[derive(Clone, Copy, Debug, PartialEq, Eq)]
pub enum Dropped {
    /// The frame is no message.
    Decode(DecodeError),
    /// A call of a function that the server does not offer, or without the
    /// arguments that the function expects.
    UnknownCall,
    /// A result for a call that does not await one.
    UnknownCallback,
    /// A result that is awaited but does not hold the numbers asked for.
    MalformedResult,
}

/// The number of entries of a view matrix.
pub const MATRIX_SIZE: usize = 16;

/// The number of entries of a place.
pub const PLACE_SIZE: usize = 3;

/// Four fresh identifiers: no message needs more.
#[derive(Clone, Debug)]
pub struct FreshIds {
    pub first: String,
    pub second: String,
    pub third: String,
    pub fourth: String,
}

impl View for FreshIds {
    type V = Seq<Seq<char>>;

    open spec fn view(&self) -> Seq<Seq<char>> {
        seq![self.first@, self.second@, self.third@, self.fourth@]
    }
}

/// `ids` are four identifiers of the form that the server makes.
pub open spec fn fresh(ids: Seq<Seq<char>>) -> bool {
    ids.len() == 4 && forall|i: int| 0 <= i < ids.len() ==> is_identifier(#[trigger] ids[i])
}

/// What a message makes of a session.
pub struct Step {
    /// The session afterwards.
    pub session: SessionView,
    /// What the server does, or why it does nothing.
    pub outcome: Result<Seq<EffectView>, Dropped>,
}

/// The session stays as it is and the frame is dropped.
pub open spec fn dropped(pre: SessionView, why: Dropped) -> Step {
    Step { session: pre, outcome: Err(why) }
}

/// The session stays as it is and one frame is sent.
pub open spec fn reply(pre: SessionView, frame: Seq<char>) -> Step {
    Step { session: pre, outcome: Ok(seq![EffectView::Send(frame)]) }
}

/// The text of the element at `at`, where there is one and it is a string.
pub open spec fn text_at(elements: Seq<JsonTree>, at: int) -> Option<Seq<char>> {
    if 0 <= at < elements.len() {
        match elements[at] {
            JsonTree::Text(text) => Some(text),
            _ => None,
        }
    } else {
        None
    }
}

/// The first `n` numbers of the element at `at`, where there is one and it is
/// an array that starts with `n` numbers.
pub open spec fn numbers_at(elements: Seq<JsonTree>, at: int, n: int) -> Option<Seq<u64>> {
    if 0 <= at < elements.len() {
        match elements[at] {
            JsonTree::Array(items) => if leading_numbers(items, n) {
                Some(leading_scalars(items, n))
            } else {
                None
            },
            _ => None,
        }
    } else {
        None
    }
}

/// The argument holds an object `frame` that holds a number `time`.
pub open spec fn has_frame_time(argument: JsonTree) -> bool {
    match argument.get("frame"@) {
        Some(frame) => match frame.get("time"@) {
            Some(time) => time is Number,
            None => false,
        },
        None => false,
    }
}

/// What the server does on a frame update of the client: it opens a
/// transaction, moves the object by the sample that it plays back, sends the
/// view matrix, closes the transaction, reports the motion as over and
/// answers the call.
pub open spec fn update_cascade(pre: SessionView, call_id: Seq<char>, ids: Seq<Seq<char>>) -> Step {
    Step {
        session: SessionView { transactions: (pre.transactions + 1) as u32, ..pre },
        outcome: Ok(
            seq![
                EffectView::Send(
                    update_call_text(
                        pre.instance,
                        ids[0],
                        "transaction"@,
                        decimal(pre.transactions as nat),
                    ),
                ),
                EffectView::MoveObject(MotionSample::synthetic()),
                EffectView::SendViewMatrix(ids[1]),
                EffectView::Send(update_call_text(pre.instance, ids[2], "transaction"@, "0"@)),
                EffectView::Send(update_call_text(pre.instance, ids[3], "motion"@, "false"@)),
                EffectView::Send(result_text(call_id, "{}"@)),
            ],
        ),
    }
}

/// What a call of `3dx_rpc:create` makes of a session.
pub open spec fn create_step(
    pre: SessionView,
    call_id: Seq<char>,
    elements: Seq<JsonTree>,
    ids: Seq<Seq<char>>,
) -> Step {
    match text_at(elements, 3) {
        Some(device) => if device == "3dconnexion:3dmouse"@ {
            reply(pre, result_text(call_id, connexion_text(ids[0])))
        } else if device == "3dconnexion:3dcontroller"@ {
            reply(pre, result_text(call_id, instance_text(pre.instance)))
        } else {
            dropped(pre, Dropped::UnknownCall)
        },
        None => dropped(pre, Dropped::UnknownCall),
    }
}

/// What a call of `3dx_rpc:update` makes of a session.
pub open spec fn update_step(
    pre: SessionView,
    call_id: Seq<char>,
    elements: Seq<JsonTree>,
    ids: Seq<Seq<char>>,
) -> Step {
    if 4 < elements.len() && elements[4] is Object {
        if has_frame_time(elements[4]) {
            update_cascade(pre, call_id, ids)
        } else {
            reply(pre, result_text(call_id, "{}"@))
        }
    } else {
        dropped(pre, Dropped::UnknownCall)
    }
}

/// What a call makes of a session.
pub open spec fn call_step(pre: SessionView, elements: Seq<JsonTree>, ids: Seq<Seq<char>>) -> Step {
    match (text_at(elements, 1), text_at(elements, 2)) {
        (Some(call_id), Some(name)) => if name == "3dx_rpc:create"@ {
            create_step(pre, call_id, elements, ids)
        } else if name == "3dx_rpc:update"@ {
            update_step(pre, call_id, elements, ids)
        } else {
            dropped(pre, Dropped::UnknownCall)
        },
        _ => dropped(pre, Dropped::UnknownCall),
    }
}

/// What the awaited result of reading the view matrix makes of a session.
pub open spec fn view_affine_step(
    pre: SessionView,
    id: Seq<char>,
    elements: Seq<JsonTree>,
    next: Seq<char>,
) -> Step {
    match numbers_at(elements, 2, MATRIX_SIZE as int) {
        Some(matrix) => Step {
            session: SessionView {
                view_matrix: matrix,
                callbacks: pre.callbacks.remove(id).insert(next, ClientReturnHandlers::ViewTarget),
                ..pre
            },
            outcome: Ok(
                seq![EffectView::Send(read_call_text(pre.instance, next, "view.target"@))],
            ),
        },
        None => dropped(pre, Dropped::MalformedResult),
    }
}

/// What the awaited result of reading the view's target makes of a session.
pub open spec fn view_target_step(
    pre: SessionView,
    id: Seq<char>,
    elements: Seq<JsonTree>,
    next: Seq<char>,
) -> Step {
    match numbers_at(elements, 2, PLACE_SIZE as int) {
        Some(place) => Step {
            session: SessionView { position: place, callbacks: pre.callbacks.remove(id), ..pre },
            outcome: Ok(
                seq![
                    EffectView::Send(update_call_text(pre.instance, next, "motion"@, "true"@)),
                ],
            ),
        },
        None => dropped(pre, Dropped::MalformedResult),
    }
}

/// What the result of a call makes of a session. Nothing is said of a handler
/// that is reserved: no session awaits a result under one.
pub open spec fn result_step(
    pre: SessionView,
    elements: Seq<JsonTree>,
    ids: Seq<Seq<char>>,
) -> Step {
    match text_at(elements, 1) {
        Some(id) => if pre.callbacks.dom().contains(id) {
            match pre.callbacks[id] {
                ClientReturnHandlers::ViewAffine => view_affine_step(pre, id, elements, ids[0]),
                ClientReturnHandlers::ViewTarget => view_target_step(pre, id, elements, ids[0]),
                _ => arbitrary(),
            }
        } else {
            dropped(pre, Dropped::UnknownCallback)
        },
        None => dropped(pre, Dropped::UnknownCallback),
    }
}

/// What a subscription makes of a session: the server asks for the view
/// matrix and awaits it.
pub open spec fn subscribe_step(pre: SessionView, next: Seq<char>) -> Step {
    Step {
        session: SessionView {
            callbacks: pre.callbacks.insert(next, ClientReturnHandlers::ViewAffine),
            ..pre
        },
        outcome: Ok(seq![EffectView::Send(read_call_text(pre.instance, next, "view.affine"@))]),
    }
}

/// What a message makes of a session, given four fresh identifiers.
pub open spec fn step(pre: SessionView, message: MessageView, ids: Seq<Seq<char>>) -> Step {
    match message.kind {
        MessageType::Call => call_step(pre, message.elements, ids),
        MessageType::CallResult => result_step(pre, message.elements, ids),
        MessageType::Subscribe => subscribe_step(pre, ids[0]),
        _ => Step { session: pre, outcome: Ok(Seq::empty()) },
    }
}

/// The effects are, one by one and in order, those of `views`.
pub open spec fn shows(effects: Seq<Effect>, views: Seq<EffectView>) -> bool {
    &&& effects.len() == views.len()
    &&& forall|i: int| 0 <= i < effects.len() ==> (#[trigger] effects[i])@ == views[i]
}

/// What a dispatch returned is the outcome `outcome`.
pub open spec fn agrees(
    returned: Result<Vec<Effect>, Dropped>,
    outcome: Result<Seq<EffectView>, Dropped>,
) -> bool {
    match returned {
        Ok(effects) => outcome is Ok && shows(effects@, outcome->Ok_0),
        Err(why) => outcome == Err::<Seq<EffectView>, Dropped>(why),
    }
}

/// A session and what a dispatch returned are as `step` says.
pub open spec fn follows(
    session: SessionView,
    returned: Result<Vec<Effect>, Dropped>,
    step: Step,
) -> bool {
    session == step.session && agrees(returned, step.outcome)
}

/// Whether `text` reads `literal`.
fn same_text(text: &String, literal: &str) -> (same: bool)
    ensures
        same == (text@ == literal@),
{
    let other = String::from_str(literal);
    *text == other
}

/// The text of the element at `at`, where there is one and it is a string.
fn element_text(elements: &Vec<Json>, at: usize) -> (r: Option<&String>)
    ensures
        match r {
            Some(text) => text_at(trees(elements@), at as int) == Some(text@),
            None => text_at(trees(elements@), at as int) is None,
        },
{
    if at < elements.len() {
        elements[at].as_text()
    } else {
        None
    }
}

/// The first `n` numbers of the element at `at`, where there is one and it is
/// an array that starts with `n` numbers.
fn element_numbers<const N: usize>(elements: &Vec<Json>, at: usize) -> (r: Option<[u64; N]>)
    ensures
        match r {
            Some(numbers) => numbers_at(trees(elements@), at as int, N as int) == Some(numbers@),
            None => numbers_at(trees(elements@), at as int, N as int) is None,
        },
{
    if at >= elements.len() {
        return None;
    }
    let items = match elements[at].as_array() {
        Some(items) => items,
        None => {
            return None;
        },
    };
    let numbers = match scalars(items, N) {
        Some(numbers) => numbers,
        None => {
            return None;
        },
    };
    let mut out: [u64; N] = [0;N];
    let mut i: usize = 0;
    while i < N
        invariant
            i <= N,
            numbers@.len() == N,
            forall|k: int| 0 <= k < i ==> out@[k] == numbers@[k],
        decreases N - i,
    {
        out[i] = numbers[i];
        i += 1;
    }
    assert(out@ =~= numbers@);
    Some(out)
}

/// Whether the argument holds an object `frame` that holds a number `time`.
fn frame_time(argument: &Json) -> (r: bool)
    ensures
        r == has_frame_time(argument@),
{
    match argument.get("frame") {
        Some(frame) => match frame.get("time") {
            Some(time) => time.as_number().is_some(),
            None => false,
        },
        None => false,
    }
}

/// One frame to send, as the whole of what the server does.
fn send_one(frame: String) -> (effects: Vec<Effect>)
    ensures
        shows(effects@, seq![EffectView::Send(frame@)]),
{
    let mut effects: Vec<Effect> = Vec::new();
    effects.push(Effect::Send(frame));
    effects
}

/// Handles a call of the client, given four fresh identifiers.
///
/// `3dx_rpc:create` of a `3dconnexion:3dmouse` is answered with a new
/// connexion identifier, that of a `3dconnexion:3dcontroller` with the
/// session's instance. `3dx_rpc:update` with an object as its argument is
/// answered with `{}`, after the update cascade where the object holds
/// `frame.time`. Every other call is dropped as [`Dropped::UnknownCall`].
pub fn handle_call(session: &mut Session, message: &Message, ids: FreshIds) -> (r: Result<
    Vec<Effect>,
    Dropped,
>)
    requires
        old(session)@.transactions < u32::MAX,
    ensures
        follows(final(session)@, r, call_step(old(session)@, message@.elements, ids@)),
{
    let elements = message.elements();
    let call_id = match element_text(elements, 1) {
        Some(text) => text,
        None => {
            return Err(Dropped::UnknownCall);
        },
    };
    let name = match element_text(elements, 2) {
        Some(text) => text,
        None => {
            return Err(Dropped::UnknownCall);
        },
    };
    if same_text(name, "3dx_rpc:create") {
        let device = match element_text(elements, 3) {
            Some(text) => text,
            None => {
                return Err(Dropped::UnknownCall);
            },
        };
        if same_text(device, "3dconnexion:3dmouse") {
            let data = connexion_object(ids.first.as_str());
            Ok(send_one(build_result(call_id.as_str(), data)))
        } else if same_text(device, "3dconnexion:3dcontroller") {
            let data = instance_object(session.instance());
            Ok(send_one(build_result(call_id.as_str(), data)))
        } else {
            Err(Dropped::UnknownCall)
        }
    } else if same_text(name, "3dx_rpc:update") {
        if elements.len() <= 4 || !elements[4].is_object() {
            return Err(Dropped::UnknownCall);
        }
        if !frame_time(&elements[4]) {
            return Ok(send_one(build_result(call_id.as_str(), String::from_str("{}"))));
        }
        let instance = session.instance();
        let opened = build_update_call(
            instance,
            ids.first.as_str(),
            "transaction",
            decimal_string(session.transactions()).as_str(),
        );
        session.advance_transactions();
        let closed = build_update_call(instance, ids.third.as_str(), "transaction", "0");
        let at_rest = build_update_call(instance, ids.fourth.as_str(), "motion", "false");
        let answer = build_result(call_id.as_str(), String::from_str("{}"));
        let mut effects: Vec<Effect> = Vec::new();
        effects.push(Effect::Send(opened));
        effects.push(Effect::MoveObject(MotionSample::synthesize()));
        effects.push(Effect::SendViewMatrix(ids.second));
        effects.push(Effect::Send(closed));
        effects.push(Effect::Send(at_rest));
        effects.push(Effect::Send(answer));
        Ok(effects)
    } else {
        Err(Dropped::UnknownCall)
    }
}

/// Handles the result of a call that the server made, given four fresh
/// identifiers.
///
/// A result that is not awaited is dropped as [`Dropped::UnknownCallback`].
/// An awaited view matrix is stored and the view's target asked for; an
/// awaited target is stored as the object's place and the motion reported as
/// started. An awaited result without the numbers asked for is dropped as
/// [`Dropped::MalformedResult`], and the call goes on awaiting.
pub fn handle_result(session: &mut Session, message: &Message, ids: FreshIds) -> (r: Result<
    Vec<Effect>,
    Dropped,
>)
    ensures
        follows(final(session)@, r, result_step(old(session)@, message@.elements, ids@)),
{
    let elements = message.elements();
    let id = match element_text(elements, 1) {
        Some(text) => text,
        None => {
            return Err(Dropped::UnknownCallback);
        },
    };
    let handler = match session.pending(id.as_str()) {
        Some(handler) => handler,
        None => {
            return Err(Dropped::UnknownCallback);
        },
    };
    match handler {
        ClientReturnHandlers::ViewAffine => {
            let matrix = match element_numbers::<16>(elements, 2) {
                Some(matrix) => matrix,
                None => {
                    return Err(Dropped::MalformedResult);
                },
            };
            let _ = session.take(id.as_str());
            session.set_view_matrix(matrix);
            let frame = build_read_call(session.instance(), ids.first.as_str(), "view.target");
            session.register(ids.first, ClientReturnHandlers::ViewTarget);
            Ok(send_one(frame))
        },
        ClientReturnHandlers::ViewTarget => {
            let place = match element_numbers::<3>(elements, 2) {
                Some(place) => place,
                None => {
                    return Err(Dropped::MalformedResult);
                },
            };
            let _ = session.take(id.as_str());
            session.set_place(place);
            let frame = build_update_call(
                session.instance(),
                ids.first.as_str(),
                "motion",
                "true",
            );
            Ok(send_one(frame))
        },
        _ => {
            assert(false);
            Err(Dropped::UnknownCallback)
        },
    }
}

/// Handles a subscription: the server asks the client for its view matrix.
pub fn handle_subscribe(session: &mut Session, id: String) -> (effects: Vec<Effect>)
    ensures
        follows(final(session)@, Ok(effects), subscribe_step(old(session)@, id@)),
{
    let frame = build_read_call(session.instance(), id.as_str(), "view.affine");
    session.register(id, ClientReturnHandlers::ViewAffine);
    send_one(frame)
}

/// Routes a message by its type, given four fresh identifiers.
///
/// Calls, results and subscriptions are handled; a message of any other type
/// changes nothing and has no effect. The outcome is exactly [`step`].
pub fn dispatch(session: &mut Session, message: &Message, ids: FreshIds) -> (r: Result<
    Vec<Effect>,
    Dropped,
>)
    requires
        old(session)@.transactions < u32::MAX,
    ensures
        follows(final(session)@, r, step(old(session)@, message@, ids@)),
        sound(final(session)@),
{
    proof {
        use_type_invariant(&*session);
        session.lemma_sound();
        law_sound_kept(session@, message@, ids@);
    }
    match message.kind() {
        MessageType::Call => handle_call(session, message, ids),
        MessageType::CallResult => handle_result(session, message, ids),
        MessageType::Subscribe => Ok(handle_subscribe(session, ids.first)),
        _ => {
            Ok(Vec::new())
        },
    }
}

/// Handles one inbound text frame.
///
/// A frame that is no message is dropped with the reason and changes
/// nothing. Otherwise four identifiers are drawn and the message is
/// dispatched: the outcome is [`step`] for the identifiers drawn.
pub fn handle_msg(session: &mut Session, frame: &[u8]) -> (r: Result<Vec<Effect>, Dropped>)
    requires
        old(session)@.transactions < u32::MAX,
    ensures
        match decode(parsed(frame@)) {
            Ok(message) => exists|ids: Seq<Seq<char>>|
                fresh(ids) && follows(
                    final(session)@,
                    r,
                    #[trigger] step(old(session)@, message, ids),
                ),
            Err(e) => r == Err::<Vec<Effect>, Dropped>(Dropped::Decode(e)) && final(session)@
                == old(session)@,
        },
        sound(final(session)@),
{
    proof {
        use_type_invariant(&*session);
        session.lemma_sound();
    }
    let message = match parse_msg(frame) {
        Ok(message) => message,
        Err(e) => {
            return Err(Dropped::Decode(e));
        },
    };
    let ids = FreshIds {
        first: generate_id(),
        second: generate_id(),
        third: generate_id(),
        fourth: generate_id(),
    };
    assert(fresh(ids@));
    dispatch(session, &message, ids)
}

} // verus!
