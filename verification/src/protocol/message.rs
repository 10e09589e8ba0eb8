//! Control, configuration and status messages: JSON payloads carried in DDP
//! packets whose ID is `Control`, `Config` or `Status`.
//!
//! Outbound messages are framed as JSON bytes by this module.  Inbound
//! payloads go through a defensive fallback chain: first a decode against the
//! typed schema of the packet's ID, then a decode as an untyped JSON value,
//! then as UTF-8 text, and finally, when all stages fail, no parsed result at
//! all.  Real-world receivers do not always emit schema-conformant JSON, so
//! every stage must degrade gracefully rather than error.

use vstd::prelude::*;
use vstd::string::StringSliceAdditionalSpecFns;
use vstd::utf8::encode_utf8;
use crate::protocol::ID;

verus! {

/// Root of a status message: `{"status": ...}`.
#[derive(Debug, PartialEq, Clone)]
pub struct StatusRoot {
    pub status: Status,
}

/// Device status fields; every field is optional on the wire.
#[derive(Debug, PartialEq, Clone)]
pub struct Status {
    pub update: Option<String>,
    pub state: Option<String>,
    pub man: Option<String>,
    /// Serialized under the key "mod"
    pub model: Option<String>,
    pub ver: Option<String>,
    pub mac: Option<String>,
    pub push: Option<bool>,
    pub ntp: Option<bool>,
}

/// Root of a configuration message: `{"config": ...}`.
#[derive(Debug, PartialEq, Clone)]
pub struct ConfigRoot {
    pub config: Config,
}

/// Network configuration and the list of output ports.
#[derive(Debug, PartialEq, Clone)]
pub struct Config {
    pub ip: Option<String>,
    pub nm: Option<String>,
    pub gw: Option<String>,
    pub ports: Vec<Port>,
}

/// One output port; all fields are required on the wire.
#[derive(Debug, PartialEq, Clone)]
pub struct Port {
    pub port: u32,
    pub ts: u32,
    pub l: u32,
    pub ss: u32,
}

/// Root of a control message: `{"control": ...}`.
#[derive(Debug, PartialEq, Clone)]
pub struct ControlRoot {
    pub control: Control,
}

/// Control fields; every field is optional on the wire.
#[derive(Debug, PartialEq, Clone)]
pub struct Control {
    pub fx: Option<String>,
    /// Serialized under the key "int"
    pub intensity: Option<u32>,
    pub spd: Option<u32>,
    pub dir: Option<u32>,
    pub colors: Option<Vec<Color>>,
    pub save: Option<u32>,
    pub power: Option<u32>,
}

/// One RGB color inside a control message; all fields are required.
#[derive(Debug, PartialEq, Clone)]
pub struct Color {
    pub r: u32,
    pub g: u32,
    pub b: u32,
}

/// A message carried by a DDP packet: one of the typed schemas, an untyped
/// JSON value tagged with its ID, or unparsed text tagged with its ID.
#[derive(Debug)]
pub enum Message {
    Control(ControlRoot),
    Status(StatusRoot),
    Config(ConfigRoot),
    Parsed((ID, serde_json::Value)),
    Unparsed((ID, String)),
}

/// `serde_json::Value` appears inside `Message`; its contents are opaque to
/// this crate and are only built and inspected through the trusted items
/// below.
#[verifier::external_type_specification]
#[verifier::external_body]
pub struct ExValue(serde_json::Value);

impl Message {
    /// The canonical ID of this message: the fixed ID of its typed schema, or
    /// the tag carried by an untyped or unparsed message.
    pub open spec fn spec_get_id(self) -> ID {
        match self {
            Message::Control(_) => ID::Control,
            Message::Status(_) => ID::Status,
            Message::Config(_) => ID::Config,
            Message::Parsed((i, _)) => i,
            Message::Unparsed((i, _)) => i,
        }
    }

    /// Returns the canonical ID of this message.
    pub fn get_id(&self) -> (r: ID)
        ensures
            r == self.spec_get_id(),
    {
        match self {
            Message::Control(_) => ID::Control,
            Message::Status(_) => ID::Status,
            Message::Config(_) => ID::Config,
            Message::Parsed((i, _)) => *i,
            Message::Unparsed((i, _)) => *i,
        }
    }
}

/// The UTF-8 bytes of a string literal, as written into the JSON framing.
pub open spec fn spec_lit(s: &str) -> Seq<u8> {
    encode_utf8(s@)
}

/// The lower-case hex digit of a value below 16.
pub open spec fn spec_hex_digit(d: u8) -> u8 {
    if d < 10 {
        (48 + d) as u8
    } else {
        (87 + d) as u8
    }
}

/// The JSON escaping of one byte inside a string: quote and backslash get a
/// backslash escape, the named control characters their short forms, the
/// remaining control bytes a `\u00XY` escape, and every other byte stands
/// for itself.
pub open spec fn spec_escape_byte(b: u8) -> Seq<u8> {
    if b == 34 {
        seq![92u8, 34u8]
    } else if b == 92 {
        seq![92u8, 92u8]
    } else if b == 8 {
        seq![92u8, 98u8]
    } else if b == 9 {
        seq![92u8, 116u8]
    } else if b == 10 {
        seq![92u8, 110u8]
    } else if b == 12 {
        seq![92u8, 102u8]
    } else if b == 13 {
        seq![92u8, 114u8]
    } else if b < 32 {
        seq![92u8, 117u8, 48u8, 48u8, spec_hex_digit(b / 16), spec_hex_digit(b % 16)]
    } else {
        seq![b]
    }
}

/// The JSON escaping of a whole byte string.
pub open spec fn spec_escape_bytes(s: Seq<u8>) -> Seq<u8>
    decreases s.len(),
{
    if s.len() == 0 {
        Seq::<u8>::empty()
    } else {
        spec_escape_bytes(s.drop_last()) + spec_escape_byte(s.last())
    }
}

/// A JSON string token: the escaped bytes between two quotes.
pub open spec fn spec_json_string(sb: Seq<u8>) -> Seq<u8> {
    seq![34u8] + spec_escape_bytes(sb) + seq![34u8]
}

/// The decimal digits of a non-negative number.
pub open spec fn spec_dec_u32(n: nat) -> Seq<u8>
    decreases n,
{
    if n < 10 {
        seq![(48 + n) as u8]
    } else {
        spec_dec_u32(n / 10) + seq![(48 + n % 10) as u8]
    }
}

/// An optional string field value: `null`, or the escaped string.
pub open spec fn spec_opt_string_json(f: Option<String>) -> Seq<u8> {
    match f {
        None => spec_lit("null"),
        Some(s) => spec_json_string(encode_utf8(s@)),
    }
}

/// An optional number field value: `null`, or the decimal digits.
pub open spec fn spec_opt_u32_json(f: Option<u32>) -> Seq<u8> {
    match f {
        None => spec_lit("null"),
        Some(n) => spec_dec_u32(n as nat),
    }
}

/// An optional boolean field value: `null`, `true` or `false`.
pub open spec fn spec_opt_bool_json(f: Option<bool>) -> Seq<u8> {
    match f {
        None => spec_lit("null"),
        Some(b) => if b {
            spec_lit("true")
        } else {
            spec_lit("false")
        },
    }
}

/// One color object, channels in declaration order.
pub open spec fn spec_color_json(c: Color) -> Seq<u8> {
    spec_lit("{\"r\":") + spec_dec_u32(c.r as nat) + spec_lit(",\"g\":") + spec_dec_u32(c.g as nat)
        + spec_lit(",\"b\":") + spec_dec_u32(c.b as nat) + spec_lit("}")
}

/// The comma-separated colors of a list, without the brackets.
pub open spec fn spec_colors_json(cs: Seq<Color>) -> Seq<u8>
    decreases cs.len(),
{
    if cs.len() == 0 {
        Seq::<u8>::empty()
    } else if cs.len() == 1 {
        spec_color_json(cs[0])
    } else {
        spec_colors_json(cs.drop_last()) + spec_lit(",") + spec_color_json(cs.last())
    }
}

/// An optional color list: `null`, or the bracketed list.
pub open spec fn spec_opt_colors_json(f: Option<Vec<Color>>) -> Seq<u8> {
    match f {
        None => spec_lit("null"),
        Some(v) => spec_lit("[") + spec_colors_json(v@) + spec_lit("]"),
    }
}

/// One port object, fields in declaration order.
pub open spec fn spec_port_json(p: Port) -> Seq<u8> {
    spec_lit("{\"port\":") + spec_dec_u32(p.port as nat) + spec_lit(",\"ts\":") + spec_dec_u32(
        p.ts as nat,
    ) + spec_lit(",\"l\":") + spec_dec_u32(p.l as nat) + spec_lit(",\"ss\":") + spec_dec_u32(
        p.ss as nat,
    ) + spec_lit("}")
}

/// The comma-separated ports of a list, without the brackets.
pub open spec fn spec_ports_json(ps: Seq<Port>) -> Seq<u8>
    decreases ps.len(),
{
    if ps.len() == 0 {
        Seq::<u8>::empty()
    } else if ps.len() == 1 {
        spec_port_json(ps[0])
    } else {
        spec_ports_json(ps.drop_last()) + spec_lit(",") + spec_port_json(ps.last())
    }
}

/// The JSON bytes of a control message, fields in declaration order.
pub open spec fn spec_control_json(c: ControlRoot) -> Seq<u8> {
    spec_lit("{\"control\":{\"fx\":") + spec_opt_string_json(c.control.fx) + spec_lit(",\"int\":")
        + spec_opt_u32_json(c.control.intensity) + spec_lit(",\"spd\":") + spec_opt_u32_json(
        c.control.spd,
    ) + spec_lit(",\"dir\":") + spec_opt_u32_json(c.control.dir) + spec_lit(",\"colors\":")
        + spec_opt_colors_json(c.control.colors) + spec_lit(",\"save\":") + spec_opt_u32_json(
        c.control.save,
    ) + spec_lit(",\"power\":") + spec_opt_u32_json(c.control.power) + spec_lit("}}")
}

/// The JSON bytes of a configuration message, fields in declaration order.
pub open spec fn spec_config_json(c: ConfigRoot) -> Seq<u8> {
    spec_lit("{\"config\":{\"ip\":") + spec_opt_string_json(c.config.ip) + spec_lit(",\"nm\":")
        + spec_opt_string_json(c.config.nm) + spec_lit(",\"gw\":") + spec_opt_string_json(
        c.config.gw,
    ) + spec_lit(",\"ports\":") + spec_lit("[") + spec_ports_json(c.config.ports@) + spec_lit("]")
        + spec_lit("}}")
}

/// The JSON bytes of a status message, fields in declaration order.
pub open spec fn spec_status_json(s: StatusRoot) -> Seq<u8> {
    spec_lit("{\"status\":{\"update\":") + spec_opt_string_json(s.status.update) + spec_lit(
        ",\"state\":",
    ) + spec_opt_string_json(s.status.state) + spec_lit(",\"man\":") + spec_opt_string_json(
        s.status.man,
    ) + spec_lit(",\"mod\":") + spec_opt_string_json(s.status.model) + spec_lit(",\"ver\":")
        + spec_opt_string_json(s.status.ver) + spec_lit(",\"mac\":") + spec_opt_string_json(
        s.status.mac,
    ) + spec_lit(",\"push\":") + spec_opt_bool_json(s.status.push) + spec_lit(",\"ntp\":")
        + spec_opt_bool_json(s.status.ntp) + spec_lit("}}")
}

/// The outbound bytes of a message whose serialization this crate frames
/// itself: the JSON of a typed schema, or the raw UTF-8 of unparsed text.
/// (An untyped `Parsed` value is serialized by the JSON library instead and
/// has no byte spec here; this function is not applied to it.)
pub open spec fn spec_typed_message_bytes(m: Message) -> Seq<u8> {
    match m {
        Message::Control(c) => spec_control_json(c),
        Message::Status(s) => spec_status_json(s),
        Message::Config(c) => spec_config_json(c),
        Message::Unparsed((_, s)) => encode_utf8(s@),
        Message::Parsed(_) => Seq::<u8>::empty(),
    }
}

/// Relies on serde_json::to_vec on a Value: serializes an untyped JSON value
/// to JSON bytes.
#[verifier::external_body]
fn value_to_bytes(v: &serde_json::Value) -> Option<Vec<u8>> {
    serde_json::to_vec(v).ok()
}

/// Appends the UTF-8 bytes of a literal piece of JSON framing.
fn append_lit(out: &mut Vec<u8>, s: &str)
    ensures
        final(out)@ == old(out)@ + spec_lit(s),
{
    out.extend_from_slice(s.as_bytes());
}

/// Appends a JSON string token: the escaped bytes of `s` between quotes.
fn append_json_string(out: &mut Vec<u8>, s: &str)
    ensures
        final(out)@ == old(out)@ + spec_json_string(encode_utf8(s@)),
{
    out.push(34);
    let bs = s.as_bytes();
    let ghost all = bs@;
    let mut i: usize = 0;
    while i < bs.len()
        invariant
            i <= bs@.len(),
            bs@ == all,
            out@ == old(out)@ + seq![34u8] + spec_escape_bytes(all.take(i as int)),
        decreases bs@.len() - i,
    {
        let b = bs[i];
        if b == 34 {
            out.push(92);
            out.push(34);
        } else if b == 92 {
            out.push(92);
            out.push(92);
        } else if b == 8 {
            out.push(92);
            out.push(98);
        } else if b == 9 {
            out.push(92);
            out.push(116);
        } else if b == 10 {
            out.push(92);
            out.push(110);
        } else if b == 12 {
            out.push(92);
            out.push(102);
        } else if b == 13 {
            out.push(92);
            out.push(114);
        } else if b < 32 {
            out.push(92);
            out.push(117);
            out.push(48);
            out.push(48);
            out.push(if b / 16 < 10 {
                48 + b / 16
            } else {
                87 + b / 16
            });
            out.push(if b % 16 < 10 {
                48 + b % 16
            } else {
                87 + b % 16
            });
        } else {
            out.push(b);
        }
        proof {
            assert(all.take(i + 1).drop_last() =~= all.take(i as int));
            assert(out@ =~= old(out)@ + seq![34u8] + spec_escape_bytes(all.take(i + 1)));
        }
        i = i + 1;
    }
    out.push(34);
    proof {
        assert(all.take(all.len() as int) =~= all);
        assert(bs@ == encode_utf8(s@));
        assert(out@ =~= old(out)@ + spec_json_string(encode_utf8(s@)));
    }
}

/// Appends the decimal digits of `n`.
fn append_u32_dec(out: &mut Vec<u8>, n: u32)
    ensures
        final(out)@ == old(out)@ + spec_dec_u32(n as nat),
    decreases n,
{
    if n >= 10 {
        append_u32_dec(out, n / 10);
    }
    out.push(48 + (n % 10) as u8);
    proof {
        assert(out@ =~= old(out)@ + spec_dec_u32(n as nat));
    }
}

/// Appends an optional string field value.
fn append_opt_string(out: &mut Vec<u8>, f: &Option<String>)
    ensures
        final(out)@ == old(out)@ + spec_opt_string_json(*f),
{
    match f {
        None => append_lit(out, "null"),
        Some(s) => append_json_string(out, s.as_str()),
    }
}

/// Appends an optional number field value.
fn append_opt_u32(out: &mut Vec<u8>, f: &Option<u32>)
    ensures
        final(out)@ == old(out)@ + spec_opt_u32_json(*f),
{
    match f {
        None => append_lit(out, "null"),
        Some(n) => append_u32_dec(out, *n),
    }
}

/// Appends an optional boolean field value.
fn append_opt_bool(out: &mut Vec<u8>, f: &Option<bool>)
    ensures
        final(out)@ == old(out)@ + spec_opt_bool_json(*f),
{
    match f {
        None => append_lit(out, "null"),
        Some(b) => {
            if *b {
                append_lit(out, "true")
            } else {
                append_lit(out, "false")
            }
        },
    }
}

/// Appends one color object.
fn append_color(out: &mut Vec<u8>, c: &Color)
    ensures
        final(out)@ == old(out)@ + spec_color_json(*c),
{
    append_lit(out, "{\"r\":");
    append_u32_dec(out, c.r);
    append_lit(out, ",\"g\":");
    append_u32_dec(out, c.g);
    append_lit(out, ",\"b\":");
    append_u32_dec(out, c.b);
    append_lit(out, "}");
    proof {
        assert(out@ =~= old(out)@ + spec_color_json(*c));
    }
}

/// Appends an optional color list field value.
fn append_opt_colors(out: &mut Vec<u8>, f: &Option<Vec<Color>>)
    ensures
        final(out)@ == old(out)@ + spec_opt_colors_json(*f),
{
    match f {
        None => append_lit(out, "null"),
        Some(cs) => {
            append_lit(out, "[");
            let mut i: usize = 0;
            while i < cs.len()
                invariant
                    i <= cs@.len(),
                    out@ == old(out)@ + spec_lit("[") + spec_colors_json(cs@.take(i as int)),
                decreases cs@.len() - i,
            {
                if i > 0 {
                    append_lit(out, ",");
                }
                append_color(out, &cs[i]);
                proof {
                    assert(cs@.take(i + 1).drop_last() =~= cs@.take(i as int));
                    assert(out@ =~= old(out)@ + spec_lit("[") + spec_colors_json(cs@.take(i + 1)));
                }
                i = i + 1;
            }
            append_lit(out, "]");
            proof {
                assert(cs@.take(cs@.len() as int) =~= cs@);
                assert(out@ =~= old(out)@ + spec_opt_colors_json(*f));
            }
        },
    }
}

/// Appends one port object.
fn append_port(out: &mut Vec<u8>, p: &Port)
    ensures
        final(out)@ == old(out)@ + spec_port_json(*p),
{
    append_lit(out, "{\"port\":");
    append_u32_dec(out, p.port);
    append_lit(out, ",\"ts\":");
    append_u32_dec(out, p.ts);
    append_lit(out, ",\"l\":");
    append_u32_dec(out, p.l);
    append_lit(out, ",\"ss\":");
    append_u32_dec(out, p.ss);
    append_lit(out, "}");
    proof {
        assert(out@ =~= old(out)@ + spec_port_json(*p));
    }
}

/// Appends the bracketed, comma-separated port list.
fn append_ports(out: &mut Vec<u8>, ps: &Vec<Port>)
    ensures
        final(out)@ == old(out)@ + spec_lit("[") + spec_ports_json(ps@) + spec_lit("]"),
{
    append_lit(out, "[");
    let mut i: usize = 0;
    while i < ps.len()
        invariant
            i <= ps@.len(),
            out@ == old(out)@ + spec_lit("[") + spec_ports_json(ps@.take(i as int)),
        decreases ps@.len() - i,
    {
        if i > 0 {
            append_lit(out, ",");
        }
        append_port(out, &ps[i]);
        proof {
            assert(ps@.take(i + 1).drop_last() =~= ps@.take(i as int));
            assert(out@ =~= old(out)@ + spec_lit("[") + spec_ports_json(ps@.take(i + 1)));
        }
        i = i + 1;
    }
    append_lit(out, "]");
    proof {
        assert(ps@.take(ps@.len() as int) =~= ps@);
        assert(out@ =~= old(out)@ + spec_lit("[") + spec_ports_json(ps@) + spec_lit("]"));
    }
}

/// Builds the JSON bytes of a control message.
#[verifier::rlimit(30)]
fn control_to_bytes(c: &ControlRoot) -> (r: Vec<u8>)
    ensures
        r@ == spec_control_json(*c),
{
    let mut out: Vec<u8> = Vec::new();
    append_lit(&mut out, "{\"control\":{\"fx\":");
    append_opt_string(&mut out, &c.control.fx);
    append_lit(&mut out, ",\"int\":");
    append_opt_u32(&mut out, &c.control.intensity);
    append_lit(&mut out, ",\"spd\":");
    append_opt_u32(&mut out, &c.control.spd);
    append_lit(&mut out, ",\"dir\":");
    append_opt_u32(&mut out, &c.control.dir);
    append_lit(&mut out, ",\"colors\":");
    append_opt_colors(&mut out, &c.control.colors);
    append_lit(&mut out, ",\"save\":");
    append_opt_u32(&mut out, &c.control.save);
    append_lit(&mut out, ",\"power\":");
    append_opt_u32(&mut out, &c.control.power);
    append_lit(&mut out, "}}");
    proof {
        assert(out@ =~= spec_control_json(*c));
    }
    out
}

/// Builds the JSON bytes of a configuration message.
#[verifier::rlimit(80)]
fn config_to_bytes(c: &ConfigRoot) -> (r: Vec<u8>)
    ensures
        r@ == spec_config_json(*c),
{
    let mut out: Vec<u8> = Vec::new();
    append_lit(&mut out, "{\"config\":{\"ip\":");
    append_opt_string(&mut out, &c.config.ip);
    append_lit(&mut out, ",\"nm\":");
    append_opt_string(&mut out, &c.config.nm);
    append_lit(&mut out, ",\"gw\":");
    append_opt_string(&mut out, &c.config.gw);
    append_lit(&mut out, ",\"ports\":");
    append_ports(&mut out, &c.config.ports);
    append_lit(&mut out, "}}");
    proof {
        assert(out@ =~= spec_config_json(*c));
    }
    out
}

/// Builds the JSON bytes of a status message.
#[verifier::rlimit(30)]
fn status_to_bytes(s: &StatusRoot) -> (r: Vec<u8>)
    ensures
        r@ == spec_status_json(*s),
{
    let mut out: Vec<u8> = Vec::new();
    append_lit(&mut out, "{\"status\":{\"update\":");
    append_opt_string(&mut out, &s.status.update);
    append_lit(&mut out, ",\"state\":");
    append_opt_string(&mut out, &s.status.state);
    append_lit(&mut out, ",\"man\":");
    append_opt_string(&mut out, &s.status.man);
    append_lit(&mut out, ",\"mod\":");
    append_opt_string(&mut out, &s.status.model);
    append_lit(&mut out, ",\"ver\":");
    append_opt_string(&mut out, &s.status.ver);
    append_lit(&mut out, ",\"mac\":");
    append_opt_string(&mut out, &s.status.mac);
    append_lit(&mut out, ",\"push\":");
    append_opt_bool(&mut out, &s.status.push);
    append_lit(&mut out, ",\"ntp\":");
    append_opt_bool(&mut out, &s.status.ntp);
    append_lit(&mut out, "}}");
    proof {
        assert(out@ =~= spec_status_json(*s));
    }
    out
}

impl Message {
    /// Serializes this message to its outbound payload bytes: the JSON of a
    /// typed schema framed by this crate, the text bytes of an unparsed
    /// message, or - for an untyped value - whatever the JSON library
    /// produces.  Only the untyped case can fail.
    pub fn try_to_bytes(&self) -> (r: Option<Vec<u8>>)
        ensures
            !(self is Parsed) ==> (r matches Some(v) && v@ == spec_typed_message_bytes(*self)),
    {
        match self {
            Message::Control(c) => Some(control_to_bytes(c)),
            Message::Config(c) => Some(config_to_bytes(c)),
            Message::Status(s) => Some(status_to_bytes(s)),
            Message::Parsed((_, v)) => value_to_bytes(v),
            Message::Unparsed((_, s)) => {
                let mut out: Vec<u8> = Vec::new();
                out.extend_from_slice(s.as_str().as_bytes());
                proof {
                    assert(out@ =~= spec_typed_message_bytes(*self));
                }
                Some(out)
            },
        }
    }
}

/// Whether `bytes` form one well-formed JSON document in the sense of the
/// JSON parser this crate calls: the outcome depends on the bytes alone.
pub uninterp spec fn spec_json_document(bytes: Seq<u8>) -> bool;

/// Relies on serde_json::from_slice::<Value>: it returns Ok exactly when the
/// input is one well-formed JSON document, an outcome that depends on the
/// bytes alone.
#[verifier::external_body]
fn parse_json_value(data: &[u8]) -> (r: Option<serde_json::Value>)
    ensures
        r is Some <==> spec_json_document(data@),
{
    serde_json::from_slice::<serde_json::Value>(data).ok()
}

/// Relies on std's str::from_utf8: it returns Ok exactly on valid UTF-8, and
/// the resulting text is the UTF-8 decoding of the bytes.
#[verifier::external_body]
fn bytes_as_utf8(data: &[u8]) -> (r: Option<&str>)
    ensures
        r is Some <==> vstd::utf8::valid_utf8(data@),
        r matches Some(s) ==> s@ == vstd::utf8::decode_utf8(data@),
{
    std::str::from_utf8(data).ok()
}

/// Relies on serde_json::Value::get: looks a key up in a JSON object, `None`
/// on a missing key or a non-object.
#[verifier::external_body]
fn json_get<'a>(v: &'a serde_json::Value, key: &str) -> Option<&'a serde_json::Value> {
    v.get(key)
}

/// Relies on serde_json::Value::as_str: the borrowed text of a JSON string,
/// `None` for any other value.
#[verifier::external_body]
fn json_as_str<'a>(v: &'a serde_json::Value) -> Option<&'a str> {
    v.as_str()
}

/// Relies on serde_json::Value::as_u64: the value of a JSON number
/// representable as a u64, `None` otherwise.
#[verifier::external_body]
fn json_as_u64(v: &serde_json::Value) -> Option<u64> {
    v.as_u64()
}

/// Relies on serde_json::Value::as_bool: the value of a JSON boolean, `None`
/// for any other value.
#[verifier::external_body]
fn json_as_bool(v: &serde_json::Value) -> Option<bool> {
    v.as_bool()
}

/// Relies on serde_json::Value::as_array: the elements of a JSON array,
/// `None` for any other value.
#[verifier::external_body]
fn json_as_array<'a>(v: &'a serde_json::Value) -> Option<&'a Vec<serde_json::Value>> {
    v.as_array()
}

/// Relies on serde_json::Value::is_null: whether the value is JSON null.
#[verifier::external_body]
fn json_is_null(v: &serde_json::Value) -> bool {
    v.is_null()
}

/// Relies on serde_json::Value::is_object: whether the value is a JSON
/// object.
#[verifier::external_body]
fn json_is_object(v: &serde_json::Value) -> bool {
    v.is_object()
}

/// An optional string field: absent or null gives `Some(None)`, a string
/// gives `Some(Some(..))`, and any other value is a schema mismatch, `None`.
fn get_opt_string(obj: &serde_json::Value, key: &str) -> Option<Option<String>> {
    match json_get(obj, key) {
        None => Some(None),
        Some(v) => {
            if json_is_null(v) {
                Some(None)
            } else {
                match json_as_str(v) {
                    Some(s) => Some(Some(s.to_owned())),
                    None => None,
                }
            }
        },
    }
}

/// An optional u32 field: absent or null gives `Some(None)`, an integer that
/// fits a u32 gives `Some(Some(..))`, and any other value is a schema
/// mismatch, `None`.
fn get_opt_u32(obj: &serde_json::Value, key: &str) -> Option<Option<u32>> {
    match json_get(obj, key) {
        None => Some(None),
        Some(v) => {
            if json_is_null(v) {
                Some(None)
            } else {
                match json_as_u64(v) {
                    Some(x) => {
                        if x <= 0xFFFF_FFFFu64 {
                            Some(Some(x as u32))
                        } else {
                            None
                        }
                    },
                    None => None,
                }
            }
        },
    }
}

/// An optional boolean field: absent or null gives `Some(None)`, a boolean
/// gives `Some(Some(..))`, and any other value is a schema mismatch, `None`.
fn get_opt_bool(obj: &serde_json::Value, key: &str) -> Option<Option<bool>> {
    match json_get(obj, key) {
        None => Some(None),
        Some(v) => {
            if json_is_null(v) {
                Some(None)
            } else {
                match json_as_bool(v) {
                    Some(b) => Some(Some(b)),
                    None => None,
                }
            }
        },
    }
}

/// A required u32 field: a schema mismatch, `None`, unless the key holds an
/// integer that fits a u32.
fn get_req_u32(obj: &serde_json::Value, key: &str) -> Option<u32> {
    match json_get(obj, key) {
        None => None,
        Some(v) => {
            match json_as_u64(v) {
                Some(x) => {
                    if x <= 0xFFFF_FFFFu64 {
                        Some(x as u32)
                    } else {
                        None
                    }
                },
                None => None,
            }
        },
    }
}

/// Reads one color object: all three channels required.
fn parse_color(v: &serde_json::Value) -> Option<Color> {
    if !json_is_object(v) {
        return None;
    }
    let r = match get_req_u32(v, "r") {
        Some(x) => x,
        None => {
            return None;
        },
    };
    let g = match get_req_u32(v, "g") {
        Some(x) => x,
        None => {
            return None;
        },
    };
    let b = match get_req_u32(v, "b") {
        Some(x) => x,
        None => {
            return None;
        },
    };
    Some(Color { r, g, b })
}

/// Reads one port object: all four fields required.
fn parse_port(v: &serde_json::Value) -> Option<Port> {
    if !json_is_object(v) {
        return None;
    }
    let port = match get_req_u32(v, "port") {
        Some(x) => x,
        None => {
            return None;
        },
    };
    let ts = match get_req_u32(v, "ts") {
        Some(x) => x,
        None => {
            return None;
        },
    };
    let l = match get_req_u32(v, "l") {
        Some(x) => x,
        None => {
            return None;
        },
    };
    let ss = match get_req_u32(v, "ss") {
        Some(x) => x,
        None => {
            return None;
        },
    };
    Some(Port { port, ts, l, ss })
}

/// Reads a control message against its typed schema.
fn parse_control(v: &serde_json::Value) -> Option<ControlRoot> {
    let inner = match json_get(v, "control") {
        Some(x) => x,
        None => {
            return None;
        },
    };
    if !json_is_object(inner) {
        return None;
    }
    let fx = match get_opt_string(inner, "fx") {
        Some(x) => x,
        None => {
            return None;
        },
    };
    let intensity = match get_opt_u32(inner, "int") {
        Some(x) => x,
        None => {
            return None;
        },
    };
    let spd = match get_opt_u32(inner, "spd") {
        Some(x) => x,
        None => {
            return None;
        },
    };
    let dir = match get_opt_u32(inner, "dir") {
        Some(x) => x,
        None => {
            return None;
        },
    };
    let colors = match json_get(inner, "colors") {
        None => None,
        Some(cv) => {
            if json_is_null(cv) {
                None
            } else {
                match json_as_array(cv) {
                    None => {
                        return None;
                    },
                    Some(arr) => {
                        let mut out: Vec<Color> = Vec::new();
                        let mut i: usize = 0;
                        while i < arr.len()
                            decreases arr@.len() - i,
                        {
                            match parse_color(&arr[i]) {
                                Some(c) => out.push(c),
                                None => {
                                    return None;
                                },
                            }
                            i = i + 1;
                        }
                        Some(out)
                    },
                }
            }
        },
    };
    let save = match get_opt_u32(inner, "save") {
        Some(x) => x,
        None => {
            return None;
        },
    };
    let power = match get_opt_u32(inner, "power") {
        Some(x) => x,
        None => {
            return None;
        },
    };
    Some(ControlRoot { control: Control { fx, intensity, spd, dir, colors, save, power } })
}

/// Reads a configuration message against its typed schema.
fn parse_config(v: &serde_json::Value) -> Option<ConfigRoot> {
    let inner = match json_get(v, "config") {
        Some(x) => x,
        None => {
            return None;
        },
    };
    if !json_is_object(inner) {
        return None;
    }
    let ip = match get_opt_string(inner, "ip") {
        Some(x) => x,
        None => {
            return None;
        },
    };
    let nm = match get_opt_string(inner, "nm") {
        Some(x) => x,
        None => {
            return None;
        },
    };
    let gw = match get_opt_string(inner, "gw") {
        Some(x) => x,
        None => {
            return None;
        },
    };
    // The ports list is required by the schema.
    let ports = match json_get(inner, "ports") {
        None => {
            return None;
        },
        Some(pv) => {
            match json_as_array(pv) {
                None => {
                    return None;
                },
                Some(arr) => {
                    let mut out: Vec<Port> = Vec::new();
                    let mut i: usize = 0;
                    while i < arr.len()
                        decreases arr@.len() - i,
                    {
                        match parse_port(&arr[i]) {
                            Some(p) => out.push(p),
                            None => {
                                return None;
                            },
                        }
                        i = i + 1;
                    }
                    out
                },
            }
        },
    };
    Some(ConfigRoot { config: Config { ip, nm, gw, ports } })
}

/// Reads a status message against its typed schema.
fn parse_status(v: &serde_json::Value) -> Option<StatusRoot> {
    let inner = match json_get(v, "status") {
        Some(x) => x,
        None => {
            return None;
        },
    };
    if !json_is_object(inner) {
        return None;
    }
    let update = match get_opt_string(inner, "update") {
        Some(x) => x,
        None => {
            return None;
        },
    };
    let state = match get_opt_string(inner, "state") {
        Some(x) => x,
        None => {
            return None;
        },
    };
    let man = match get_opt_string(inner, "man") {
        Some(x) => x,
        None => {
            return None;
        },
    };
    let model = match get_opt_string(inner, "mod") {
        Some(x) => x,
        None => {
            return None;
        },
    };
    let ver = match get_opt_string(inner, "ver") {
        Some(x) => x,
        None => {
            return None;
        },
    };
    let mac = match get_opt_string(inner, "mac") {
        Some(x) => x,
        None => {
            return None;
        },
    };
    let push = match get_opt_bool(inner, "push") {
        Some(x) => x,
        None => {
            return None;
        },
    };
    let ntp = match get_opt_bool(inner, "ntp") {
        Some(x) => x,
        None => {
            return None;
        },
    };
    Some(StatusRoot { status: Status { update, state, man, model, ver, mac, push, ntp } })
}

/// What the decode fallback chain guarantees for a payload with the given ID:
/// only the three message IDs decode at all; a well-formed JSON document
/// always yields a message (typed when the schema fits, otherwise the untyped
/// value tagged with the ID, never unparsed text); bytes that are not JSON
/// but are UTF-8 yield the text tagged with the ID; anything else yields no
/// message.  Whatever stage wins, the message carries the packet's ID.
pub open spec fn spec_parse_post(r: Option<Message>, id: ID, data: Seq<u8>) -> bool {
    let relevant = id == ID::Control || id == ID::Config || id == ID::Status;
    &&& !relevant ==> r is None
    &&& relevant ==> {
        &&& spec_json_document(data) ==> r is Some
        &&& spec_json_document(data) ==> (r matches Some(m) ==> !(m is Unparsed))
        &&& id == ID::Control && spec_json_document(data) ==> (r matches Some(m) ==> (m is Control
            || m is Parsed))
        &&& id == ID::Config && spec_json_document(data) ==> (r matches Some(m) ==> (m is Config
            || m is Parsed))
        &&& id == ID::Status && spec_json_document(data) ==> (r matches Some(m) ==> (m is Status
            || m is Parsed))
        &&& !spec_json_document(data) && vstd::utf8::valid_utf8(data) ==> (r matches Some(m)
            && m matches Message::Unparsed(t) && t.0 == id && t.1@ == vstd::utf8::decode_utf8(
            data,
        ))
        &&& !spec_json_document(data) && !vstd::utf8::valid_utf8(data) ==> r is None
        &&& r matches Some(m) ==> m.spec_get_id() == id
    }
}

impl Message {
    /// Decodes an inbound payload for a reply packet with the given ID,
    /// through the fallback chain: the typed schema of the ID first, then an
    /// untyped JSON value, then UTF-8 text, and finally nothing.
    pub fn parse(id: ID, data: &[u8]) -> (r: Option<Message>)
        ensures
            spec_parse_post(r, id, data@),
    {
        let relevant = match id {
            ID::Control => true,
            ID::Config => true,
            ID::Status => true,
            _ => false,
        };
        if !relevant {
            return None;
        }
        match parse_json_value(data) {
            Some(v) => {
                match id {
                    ID::Control => {
                        match parse_control(&v) {
                            Some(c) => Some(Message::Control(c)),
                            None => Some(Message::Parsed((id, v))),
                        }
                    },
                    ID::Config => {
                        match parse_config(&v) {
                            Some(c) => Some(Message::Config(c)),
                            None => Some(Message::Parsed((id, v))),
                        }
                    },
                    _ => {
                        match parse_status(&v) {
                            Some(s) => Some(Message::Status(s)),
                            None => Some(Message::Parsed((id, v))),
                        }
                    },
                }
            },
            None => {
                match bytes_as_utf8(data) {
                    Some(s) => Some(Message::Unparsed((id, s.to_owned()))),
                    None => None,
                }
            },
        }
    }
}

} // verus!
