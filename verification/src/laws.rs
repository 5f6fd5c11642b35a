//! What holds of the protocol engine as a whole, proved from the definitions
//! that its contracts use.

use crate::dispatch::{numbers_at, reply, step, text_at, Dropped, EffectView, Step};
use crate::json::JsonTree;
use crate::message::{classify, decode, DecodeError, MessageType, MessageView};
use crate::motion::{norm_squared, MotionSample};
use crate::session::{initial, sound, ClientReturnHandlers, SessionView};
use crate::wire::{decimal, instance_text, read_call_text, result_text, update_call_text};
use vstd::prelude::*;

verus! {

/// A document is a message exactly if it is an array of two to six elements
/// whose first is an integer from 0 to 8. The message then has the type of
/// that tag and the array's elements.
pub proof fn law_decode_accepts(document: JsonTree)
    ensures
        classify(document) is Ok <==> {
            &&& document is Array
            &&& 2 <= document->Array_0.len() <= 6
            &&& document->Array_0[0] is Number
            &&& document->Array_0[0]->Number_0.unsigned is Some
            &&& document->Array_0[0]->Number_0.unsigned->Some_0 <= 8
        },
        classify(document) matches Ok(message) ==> {
            &&& message.kind.tag() == document->Array_0[0]->Number_0.unsigned->Some_0
            &&& message.elements == document->Array_0
        },
{
}

/// The outcome of decoding what is no message for the reason `why`.
pub open spec fn rejected(why: DecodeError) -> Result<MessageView, DecodeError> {
    Err(why)
}

/// Why a document is no message: it is no array; or its length is not from
/// two to six; or, with such a length, its first element is no integer from
/// 0 to 8. A frame that is no JSON document at all is malformed.
pub proof fn law_decode_rejects(document: JsonTree)
    ensures
        classify(document) == rejected(DecodeError::NotAnArray) <==> !(document is Array),
        classify(document) == rejected(DecodeError::WrongArity) <==> {
            &&& document is Array
            &&& !(2 <= document->Array_0.len() <= 6)
        },
        classify(document) == rejected(DecodeError::InvalidTag) <==> {
            &&& document is Array
            &&& 2 <= document->Array_0.len() <= 6
            &&& !(document->Array_0[0] matches JsonTree::Number(n) && n.unsigned matches Some(tag)
                && tag <= 8)
        },
        decode(None) == rejected(DecodeError::MalformedJson),
        classify(document) != rejected(DecodeError::MalformedJson),
{
}

/// The tags 0 to 8 stand for the nine message types, each for its own.
pub proof fn law_tags_and_types(kind: MessageType, tag: u64)
    ensures
        kind.tag() <= 8,
        MessageType::of_tag(kind.tag()) == kind,
        tag <= 8 ==> MessageType::of_tag(tag).tag() == tag,
{
}

/// The event that asks for the view matrix reads, for instance `I` and
/// identifier `S`, exactly
/// `[8,"3dconnexion:3dcontroller/I",[2,"S","self:read","","view.affine"]]`.
pub proof fn law_read_view_affine(instance: u32, id: Seq<char>)
    ensures
        read_call_text(instance, id, "view.affine"@) == "[8,\"3dconnexion:3dcontroller/"@ + decimal(
            instance as nat,
        ) + "\",[2,\""@ + id + "\",\"self:read\",\"\",\"view.affine\"]]"@,
{
    reveal_strlit("[8,\"");
    reveal_strlit("3dconnexion:3dcontroller/");
    reveal_strlit("[8,\"3dconnexion:3dcontroller/");
    reveal_strlit("\",\"self:read\",\"\",\"");
    reveal_strlit("view.affine");
    reveal_strlit("\"]]");
    reveal_strlit("\",\"self:read\",\"\",\"view.affine\"]]");
    assert("[8,\""@ + "3dconnexion:3dcontroller/"@ =~= "[8,\"3dconnexion:3dcontroller/"@);
    assert("\",\"self:read\",\"\",\""@ + "view.affine"@ + "\"]]"@
        =~= "\",\"self:read\",\"\",\"view.affine\"]]"@);
    assert(read_call_text(instance, id, "view.affine"@) =~= "[8,\"3dconnexion:3dcontroller/"@
        + decimal(instance as nat) + "\",[2,\""@ + id
        + "\",\"self:read\",\"\",\"view.affine\"]]"@);
}

/// A frame that is dropped leaves the session as it was.
pub proof fn law_dropped_changes_nothing(
    pre: SessionView,
    message: MessageView,
    ids: Seq<Seq<char>>,
)
    requires
        sound(pre),
    ensures
        step(pre, message, ids).outcome is Err ==> step(pre, message, ids).session == pre,
{
}

/// No message changes the instance of a session or the orientation of its
/// object, and none moves the transaction counter by more than one.
pub proof fn law_instance_kept(pre: SessionView, message: MessageView, ids: Seq<Seq<char>>)
    requires
        sound(pre),
    ensures
        step(pre, message, ids).session.instance == pre.instance,
        step(pre, message, ids).session.transactions == pre.transactions || step(
            pre,
            message,
            ids,
        ).session.transactions == (pre.transactions + 1) as u32,
        step(pre, message, ids).session.orientation == pre.orientation,
{
}

/// Every message leaves a sound session sound: the spatial state keeps its
/// sizes and no call awaits its result under a reserved handler.
pub proof fn law_sound_kept(pre: SessionView, message: MessageView, ids: Seq<Seq<char>>)
    requires
        sound(pre),
    ensures
        sound(step(pre, message, ids).session),
{
    let post = step(pre, message, ids).session;
    assert forall|id: Seq<char>| #[trigger]
        post.callbacks.dom().contains(id) implies post.callbacks[id].implemented() by {
        if pre.callbacks.dom().contains(id) {
            assert(pre.callbacks[id].implemented());
        }
    }
}

/// Every session starts sound.
pub proof fn law_initial_sound(instance: u32)
    ensures
        sound(initial(instance)),
{
}

/// The outcome of a step that drops the frame for the reason `why`.
pub open spec fn refused(why: Dropped) -> Result<Seq<EffectView>, Dropped> {
    Err(why)
}

/// What a step does that sends exactly the frame `frame`.
pub open spec fn sends(frame: Seq<char>) -> Result<Seq<EffectView>, Dropped> {
    Ok(seq![EffectView::Send(frame)])
}

/// Why a message is dropped. Only a call is dropped as unknown, and only a
/// result as not awaited or malformed: a result is not awaited exactly if it
/// names no call that awaits one, and malformed exactly if it is awaited and
/// lacks the numbers that its handler asks for.
pub proof fn law_drop_reasons(pre: SessionView, message: MessageView, ids: Seq<Seq<char>>)
    requires
        sound(pre),
    ensures
        !(step(pre, message, ids).outcome matches Err(Dropped::Decode(_))),
        step(pre, message, ids).outcome == refused(Dropped::UnknownCall) ==> message.kind
            == MessageType::Call,
        step(pre, message, ids).outcome == refused(Dropped::UnknownCallback) <==> {
            &&& message.kind == MessageType::CallResult
            &&& !(text_at(message.elements, 1) matches Some(id) && pre.callbacks.dom().contains(id))
        },
        step(pre, message, ids).outcome == refused(Dropped::MalformedResult) <==> {
            &&& message.kind == MessageType::CallResult
            &&& text_at(message.elements, 1) matches Some(id)
            &&& pre.callbacks.dom().contains(id)
            &&& numbers_at(
                message.elements,
                2,
                if pre.callbacks[id] == ClientReturnHandlers::ViewAffine {
                    16
                } else {
                    3
                },
            ) is None
        },
{
}

/// Messages of the types that the server only sends, and those that it only
/// takes note of, have no effect and change nothing.
pub proof fn law_ignored_types(pre: SessionView, message: MessageView, ids: Seq<Seq<char>>)
    requires
        message.kind != MessageType::Call,
        message.kind != MessageType::CallResult,
        message.kind != MessageType::Subscribe,
    ensures
        step(pre, message, ids) == (Step { session: pre, outcome: Ok(Seq::empty()) }),
{
}

/// The result of reading the view matrix, awaited under `id` and holding an
/// array of sixteen numbers, sets the session's view matrix to these numbers,
/// one by one and in order, and asks the client for the view's target.
pub proof fn law_view_affine_result(
    pre: SessionView,
    message: MessageView,
    ids: Seq<Seq<char>>,
    id: Seq<char>,
    numbers: Seq<JsonTree>,
)
    requires
        message.kind == MessageType::CallResult,
        message.elements.len() >= 3,
        message.elements[1] == JsonTree::Text(id),
        message.elements[2] == JsonTree::Array(numbers),
        numbers.len() == 16,
        forall|i: int| 0 <= i < 16 ==> (#[trigger] numbers[i]) is Number,
        pre.callbacks.dom().contains(id),
        pre.callbacks[id] == ClientReturnHandlers::ViewAffine,
    ensures
        step(pre, message, ids).session.view_matrix.len() == 16,
        forall|i: int|
            0 <= i < 16 ==> #[trigger] step(pre, message, ids).session.view_matrix[i]
                == numbers[i]->Number_0.bits,
        step(pre, message, ids).outcome == sends(
            read_call_text(pre.instance, ids[0], "view.target"@),
        ),
        step(pre, message, ids).session.callbacks == pre.callbacks.remove(id).insert(
            ids[0],
            ClientReturnHandlers::ViewTarget,
        ),
{
}

/// From a subscription to motion. A subscription makes the server ask for
/// the view matrix; the result of that makes it ask for the view's target;
/// the result of that makes it report the motion as started. Each step sends
/// exactly one frame, and at the end nothing is awaited that was not before.
pub proof fn law_subscribe_cascade(
    pre: SessionView,
    subscribe: MessageView,
    affine: MessageView,
    target: MessageView,
    first: Seq<Seq<char>>,
    second: Seq<Seq<char>>,
    third: Seq<Seq<char>>,
)
    requires
        sound(pre),
        subscribe.kind == MessageType::Subscribe,
        affine.kind == MessageType::CallResult,
        text_at(affine.elements, 1) == Some(first[0]),
        numbers_at(affine.elements, 2, 16) is Some,
        target.kind == MessageType::CallResult,
        text_at(target.elements, 1) == Some(second[0]),
        numbers_at(target.elements, 2, 3) is Some,
    ensures
        ({
            let one = step(pre, subscribe, first);
            let two = step(one.session, affine, second);
            let three = step(two.session, target, third);
            &&& one.outcome == sends(read_call_text(pre.instance, first[0], "view.affine"@))
            &&& two.outcome == sends(read_call_text(pre.instance, second[0], "view.target"@))
            &&& three.outcome == sends(
                update_call_text(pre.instance, third[0], "motion"@, "true"@),
            )
            &&& three.session.view_matrix == numbers_at(affine.elements, 2, 16)->Some_0
            &&& three.session.position == numbers_at(target.elements, 2, 3)->Some_0
            &&& three.session.callbacks == pre.callbacks.remove(first[0]).remove(second[0])
        }),
{
    let one = step(pre, subscribe, first);
    let two = step(one.session, affine, second);
    let three = step(two.session, target, third);
    assert(one.session.callbacks.dom().contains(first[0]));
    assert(two.session.callbacks.dom().contains(second[0]));
    assert(three.session.callbacks =~= pre.callbacks.remove(first[0]).remove(second[0]));
}

/// Creating a controller is answered with the session's instance, which is
/// the instance in the topic of every event that the session sends before and
/// after, since no message changes it.
pub proof fn law_create_controller(
    pre: SessionView,
    message: MessageView,
    ids: Seq<Seq<char>>,
    call_id: Seq<char>,
)
    requires
        message.kind == MessageType::Call,
        message.elements.len() >= 4,
        message.elements[1] == JsonTree::Text(call_id),
        message.elements[2] == JsonTree::Text("3dx_rpc:create"@),
        message.elements[3] == JsonTree::Text("3dconnexion:3dcontroller"@),
    ensures
        step(pre, message, ids) == reply(pre, result_text(call_id, instance_text(pre.instance))),
{
    reveal_strlit("3dconnexion:3dcontroller");
    reveal_strlit("3dconnexion:3dmouse");
    assert("3dconnexion:3dcontroller"@.len() != "3dconnexion:3dmouse"@.len());
}

/// A sample turns exactly if its rotation vector has a length other than
/// zero.
pub proof fn law_no_rotation(sample: MotionSample)
    ensures
        norm_squared(sample.rx as int, sample.ry as int, sample.rz as int) == 0 <==> (sample.rx == 0
            && sample.ry == 0 && sample.rz == 0),
{
    assert(norm_squared(sample.rx as int, sample.ry as int, sample.rz as int) == 0 <==> (sample.rx
        == 0 && sample.ry == 0 && sample.rz == 0)) by (nonlinear_arith);
}

} // verus!
