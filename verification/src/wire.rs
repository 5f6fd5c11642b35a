//! The exact text of every frame that the server sends.
//!
//! Each builder is specified by a function from its arguments to the
//! characters of the frame. Identifiers, keys and values are placed as they
//! are given: the builders neither quote nor escape them further.

use vstd::prelude::*;
use vstd::string::*;

verus! {

/// The decimal digit for `d`.
pub open spec fn digit(d: nat) -> char {
    if d == 0 {
        '0'
    } else if d == 1 {
        '1'
    } else if d == 2 {
        '2'
    } else if d == 3 {
        '3'
    } else if d == 4 {
        '4'
    } else if d == 5 {
        '5'
    } else if d == 6 {
        '6'
    } else if d == 7 {
        '7'
    } else if d == 8 {
        '8'
    } else {
        '9'
    }
}

/// `n` in decimal, without sign or leading zeros.
pub open spec fn decimal(n: nat) -> Seq<char>
    decreases n,
{
    if n < 10 {
        seq![digit(n)]
    } else {
        decimal(n / 10).push(digit(n % 10))
    }
}

/// The topic under which a session's controller instance is addressed.
pub open spec fn topic_text(instance: u32) -> Seq<char> {
    "3dconnexion:3dcontroller/"@ + decimal(instance as nat)
}

/// The greeting that opens a session: `[0,"<id>",1,"<product>"]`.
pub open spec fn welcome_text(id: Seq<char>) -> Seq<char> {
    "[0,\""@ + id
        + "\",1,\"Nl-Proxy v1.4.3.19386 Copyright 2013-2022 3Dconnexion. All rights reserved.\"]"@
}

/// The answer to a call: `[3,"<id>",<data>]`.
pub open spec fn result_text(id: Seq<char>, data: Seq<char>) -> Seq<char> {
    "[3,\""@ + id + "\","@ + data + "]"@
}

/// An event that asks the client to read `key`:
/// `[8,"3dconnexion:3dcontroller/<instance>",[2,"<id>","self:read","","<key>"]]`.
pub open spec fn read_call_text(instance: u32, id: Seq<char>, key: Seq<char>) -> Seq<char> {
    "[8,\""@ + topic_text(instance) + "\",[2,\""@ + id + "\",\"self:read\",\"\",\""@ + key
        + "\"]]"@
}

/// An event that asks the client to set `key` to `value`:
/// `[8,"3dconnexion:3dcontroller/<instance>",[2,"<id>","self:update","","<key>",<value>]]`.
pub open spec fn update_call_text(
    instance: u32,
    id: Seq<char>,
    key: Seq<char>,
    value: Seq<char>,
) -> Seq<char> {
    "[8,\""@ + topic_text(instance) + "\",[2,\""@ + id + "\",\"self:update\",\"\",\""@ + key
        + "\","@ + value + "]]"@
}

/// The result of creating a device connexion: `{"connexion":"<id>"}`.
pub open spec fn connexion_text(id: Seq<char>) -> Seq<char> {
    "{\"connexion\":\""@ + id + "\"}"@
}

/// The result of creating a controller: `{"instance":<instance>}`.
pub open spec fn instance_text(instance: u32) -> Seq<char> {
    "{\"instance\":"@ + decimal(instance as nat) + "}"@
}

/// The one-character text of the digit for `d`.
fn digit_str(d: u32) -> (s: &'static str)
    requires
        d < 10,
    ensures
        s@ == seq![digit(d as nat)],
{
    proof {
        reveal_strlit("0");
        reveal_strlit("1");
        reveal_strlit("2");
        reveal_strlit("3");
        reveal_strlit("4");
        reveal_strlit("5");
        reveal_strlit("6");
        reveal_strlit("7");
        reveal_strlit("8");
        reveal_strlit("9");
    }
    let s = if d == 0 {
        "0"
    } else if d == 1 {
        "1"
    } else if d == 2 {
        "2"
    } else if d == 3 {
        "3"
    } else if d == 4 {
        "4"
    } else if d == 5 {
        "5"
    } else if d == 6 {
        "6"
    } else if d == 7 {
        "7"
    } else if d == 8 {
        "8"
    } else {
        "9"
    };
    assert(s@ =~= seq![digit(d as nat)]);
    s
}

/// Appends `n` in decimal to `out`.
pub fn push_decimal(out: &mut String, n: u32)
    ensures
        final(out)@ == old(out)@ + decimal(n as nat),
    decreases n,
{
    if n >= 10 {
        push_decimal(out, n / 10);
    }
    out.append(digit_str(n % 10));
    assert(out@ =~= old(out)@ + decimal(n as nat));
}

/// `n` in decimal.
pub fn decimal_string(n: u32) -> (s: String)
    ensures
        s@ == decimal(n as nat),
{
    let mut s = String::new();
    push_decimal(&mut s, n);
    assert(s@ =~= decimal(n as nat));
    s
}

/// Builds the greeting frame for the session identifier `id`.
pub fn build_welcome(id: &str) -> (frame: String)
    ensures
        frame@ == welcome_text(id@),
{
    let mut frame = String::from_str("[0,\"");
    frame.append(id);
    frame.append(
        "\",1,\"Nl-Proxy v1.4.3.19386 Copyright 2013-2022 3Dconnexion. All rights reserved.\"]",
    );
    frame
}

/// The identifier that the greeting of every session carries.
pub open spec fn greeting_id() -> Seq<char> {
    "8GXm6SS4smp3Ai0e"@
}

/// Builds the frame that greets a client when its connection opens.
pub fn welcome_frame() -> (frame: String)
    ensures
        frame@ == welcome_text(greeting_id()),
{
    build_welcome("8GXm6SS4smp3Ai0e")
}

/// Builds the call-result frame that answers call `id` with the JSON text
/// `data`.
pub fn build_result(id: &str, data: String) -> (frame: String)
    ensures
        frame@ == result_text(id@, data@),
{
    let mut frame = String::from_str("[3,\"");
    frame.append(id);
    frame.append("\",");
    frame.append(data.as_str());
    frame.append("]");
    frame
}

/// Appends the opening of an event frame, up to and including the opening
/// quote of the nested call's identifier.
fn push_event_head(frame: &mut String, instance: u32)
    ensures
        final(frame)@ == old(frame)@ + "[8,\""@ + topic_text(instance) + "\",[2,\""@,
{
    frame.append("[8,\"");
    frame.append("3dconnexion:3dcontroller/");
    push_decimal(frame, instance);
    frame.append("\",[2,\"");
    assert(frame@ =~= old(frame)@ + "[8,\""@ + topic_text(instance) + "\",[2,\""@);
}

/// Builds the event frame that wraps a `self:read` of `key`, to be answered
/// under the identifier `id`.
pub fn build_read_call(instance: u32, id: &str, key: &str) -> (frame: String)
    ensures
        frame@ == read_call_text(instance, id@, key@),
{
    let mut frame = String::new();
    push_event_head(&mut frame, instance);
    frame.append(id);
    frame.append("\",\"self:read\",\"\",\"");
    frame.append(key);
    frame.append("\"]]");
    assert(frame@ =~= read_call_text(instance, id@, key@));
    frame
}

/// Builds the event frame that wraps a `self:update` of `key` to the JSON text
/// `value`, under the identifier `id`.
pub fn build_update_call(instance: u32, id: &str, key: &str, value: &str) -> (frame: String)
    ensures
        frame@ == update_call_text(instance, id@, key@, value@),
{
    let mut frame = String::new();
    push_event_head(&mut frame, instance);
    frame.append(id);
    frame.append("\",\"self:update\",\"\",\"");
    frame.append(key);
    frame.append("\",");
    frame.append(value);
    frame.append("]]");
    assert(frame@ =~= update_call_text(instance, id@, key@, value@));
    frame
}

/// Builds the event frame that sets the client's view matrix to the JSON
/// array `matrix`, under the identifier `id`.
pub fn build_view_matrix_call(instance: u32, id: &str, matrix: &str) -> (frame: String)
    ensures
        frame@ == update_call_text(instance, id@, "view.affine"@, matrix@),
{
    build_update_call(instance, id, "view.affine", matrix)
}

/// The JSON text `{"connexion":"<id>"}`.
pub fn connexion_object(id: &str) -> (data: String)
    ensures
        data@ == connexion_text(id@),
{
    let mut data = String::from_str("{\"connexion\":\"");
    data.append(id);
    data.append("\"}");
    data
}

/// The JSON text `{"instance":<instance>}`.
pub fn instance_object(instance: u32) -> (data: String)
    ensures
        data@ == instance_text(instance),
{
    let mut data = String::from_str("{\"instance\":");
    push_decimal(&mut data, instance);
    data.append("}");
    data
}

} // verus!
