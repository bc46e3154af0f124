use vstd::prelude::*;
use vstd::string::StrSliceExecFns;
use vstd::string::StringExecFns;
use vstd::utf8::is_ascii_chars;
use crate::errors::GpioError;
use crate::text::trim_spec;
use crate::text::trim_str;

verus! {

/// Pin direction.  `High` and `Low` are write-only: they configure the pin
/// as an output and atomically initialize its level, avoiding a glitch
/// window.  Reading the direction back yields only `In` or `Out`.
#[derive(Clone, Debug)]
pub enum Direction {
    In,
    Out,
    High,
    Low,
}

/// Edge configuration: which signal transitions make a poll wake up.
#[derive(Clone, Debug)]
pub enum Edge {
    NoInterrupt,
    RisingEdge,
    FallingEdge,
    BothEdges,
}

/// The token the direction attribute file takes for `d`.
pub open spec fn direction_token(d: Direction) -> Seq<char> {
    match d {
        Direction::In => "in"@,
        Direction::Out => "out"@,
        Direction::High => "high"@,
        Direction::Low => "low"@,
    }
}

/// The direction a trimmed attribute token denotes, if any.
pub open spec fn direction_of_token(t: Seq<char>) -> Option<Direction> {
    if t == "in"@ {
        Some(Direction::In)
    } else if t == "out"@ {
        Some(Direction::Out)
    } else if t == "high"@ {
        Some(Direction::High)
    } else if t == "low"@ {
        Some(Direction::Low)
    } else {
        None
    }
}

/// The token the edge attribute file takes for `e`.
pub open spec fn edge_token(e: Edge) -> Seq<char> {
    match e {
        Edge::NoInterrupt => "none"@,
        Edge::RisingEdge => "rising"@,
        Edge::FallingEdge => "falling"@,
        Edge::BothEdges => "both"@,
    }
}

/// The edge configuration a trimmed attribute token denotes, if any.
pub open spec fn edge_of_token(t: Seq<char>) -> Option<Edge> {
    if t == "none"@ {
        Some(Edge::NoInterrupt)
    } else if t == "rising"@ {
        Some(Edge::RisingEdge)
    } else if t == "falling"@ {
        Some(Edge::FallingEdge)
    } else if t == "both"@ {
        Some(Edge::BothEdges)
    } else {
        None
    }
}

/// The token written to the value attribute for `v`: "0" for zero, "1"
/// for every other input (any nonzero value means logical high).
pub open spec fn value_token(v: u8) -> Seq<char> {
    if v == 0 {
        "0"@
    } else {
        "1"@
    }
}

/// The logical level a trimmed value token denotes, if any: exactly "0"
/// or "1" is accepted.
pub open spec fn value_of_token(t: Seq<char>) -> Option<u8> {
    if t == "0"@ {
        Some(0)
    } else if t == "1"@ {
        Some(1)
    } else {
        None
    }
}

/// The level a value-file snapshot denotes: its first character read as
/// 0 or 1; anything else, including empty contents, is unrecognized.
pub open spec fn leading_value(s: Seq<char>) -> Option<u8> {
    if s.len() > 0 && s[0] == '0' {
        Some(0)
    } else if s.len() > 0 && s[0] == '1' {
        Some(1)
    } else {
        None
    }
}

/// Parses direction attribute contents: trims ASCII whitespace, then
/// accepts exactly the four direction tokens.  Every other content is
/// reported as [`GpioError::Unexpected`] carrying the trimmed text.
pub fn parse_direction(content: &str) -> (r: Result<Direction, GpioError>)
    ensures
        ({
            let t = trim_spec(content@);
            match r {
                Ok(d) => direction_of_token(t) == Some(d),
                Err(e) => direction_of_token(t) is None && (e matches GpioError::Unexpected(raw)
                    && raw@ == t),
            }
        }),
{
    let t: String = trim_str(content).to_owned();
    if t == String::from_str("in") {
        Ok(Direction::In)
    } else if t == String::from_str("out") {
        Ok(Direction::Out)
    } else if t == String::from_str("high") {
        Ok(Direction::High)
    } else if t == String::from_str("low") {
        Ok(Direction::Low)
    } else {
        Err(GpioError::Unexpected(t))
    }
}

/// Parses edge attribute contents, as [`parse_direction`] does for
/// direction.
pub fn parse_edge(content: &str) -> (r: Result<Edge, GpioError>)
    ensures
        ({
            let t = trim_spec(content@);
            match r {
                Ok(e) => edge_of_token(t) == Some(e),
                Err(e) => edge_of_token(t) is None && (e matches GpioError::Unexpected(raw)
                    && raw@ == t),
            }
        }),
{
    let t: String = trim_str(content).to_owned();
    if t == String::from_str("none") {
        Ok(Edge::NoInterrupt)
    } else if t == String::from_str("rising") {
        Ok(Edge::RisingEdge)
    } else if t == String::from_str("falling") {
        Ok(Edge::FallingEdge)
    } else if t == String::from_str("both") {
        Ok(Edge::BothEdges)
    } else {
        Err(GpioError::Unexpected(t))
    }
}

/// Parses value attribute contents: after trimming, exactly "0" or "1"
/// is accepted and returned as the integer 0 or 1.
pub fn parse_value(content: &str) -> (r: Result<u8, GpioError>)
    ensures
        ({
            let t = trim_spec(content@);
            match r {
                Ok(v) => value_of_token(t) == Some(v),
                Err(e) => value_of_token(t) is None && (e matches GpioError::Unexpected(raw)
                    && raw@ == t),
            }
        }),
{
    let t: String = trim_str(content).to_owned();
    if t == String::from_str("0") {
        Ok(0)
    } else if t == String::from_str("1") {
        Ok(1)
    } else {
        Err(GpioError::Unexpected(t))
    }
}

/// Parses a value-file snapshot taken after an edge event: the single
/// leading character must be '0' or '1'.  The snapshot reflects the pin
/// at the moment of reading, not the edge that triggered the wake.
pub fn parse_value_snapshot(content: &str) -> (r: Result<u8, GpioError>)
    ensures
        match r {
            Ok(v) => leading_value(content@) == Some(v),
            Err(e) => leading_value(content@) is None && (e matches GpioError::Unexpected(raw)
                && raw@ == content@),
        },
{
    if content.unicode_len() == 0 {
        return Err(GpioError::Unexpected(content.to_owned()));
    }
    let c = content.get_char(0);
    if c == '0' {
        Ok(0)
    } else if c == '1' {
        Ok(1)
    } else {
        Err(GpioError::Unexpected(content.to_owned()))
    }
}

/// The token written for direction `d`, always ASCII.
pub fn direction_str(d: Direction) -> (r: &'static str)
    ensures
        r@ == direction_token(d),
        is_ascii_chars(r@),
{
    let r: &'static str = match d {
        Direction::In => "in",
        Direction::Out => "out",
        Direction::High => "high",
        Direction::Low => "low",
    };
    proof {
        reveal_strlit("in");
        reveal_strlit("out");
        reveal_strlit("high");
        reveal_strlit("low");
    }
    r
}

/// The token written for edge configuration `e`, always ASCII.
pub fn edge_str(e: Edge) -> (r: &'static str)
    ensures
        r@ == edge_token(e),
        is_ascii_chars(r@),
{
    let r: &'static str = match e {
        Edge::NoInterrupt => "none",
        Edge::RisingEdge => "rising",
        Edge::FallingEdge => "falling",
        Edge::BothEdges => "both",
    };
    proof {
        reveal_strlit("none");
        reveal_strlit("rising");
        reveal_strlit("falling");
        reveal_strlit("both");
    }
    r
}

/// The token written for value `v`, always ASCII.
pub fn value_str(v: u8) -> (r: &'static str)
    ensures
        r@ == value_token(v),
        is_ascii_chars(r@),
{
    let r: &'static str = if v == 0 {
        "0"
    } else {
        "1"
    };
    proof {
        reveal_strlit("0");
        reveal_strlit("1");
    }
    r
}

/// What the kernel stores when direction `written` is written: `High`
/// and `Low` configure an output with an initial level, so the attribute
/// thereafter holds the token of `Out`.
pub open spec fn stored_direction(written: Direction) -> Direction {
    match written {
        Direction::In => Direction::In,
        _ => Direction::Out,
    }
}

/// Writing any direction and reading the attribute back parses to the
/// stored direction: writing `High` or `Low` reads back as `Out`, and a
/// read-back is never `High` or `Low`.
pub proof fn lemma_direction_read_back(written: Direction)
    ensures
        ({
            let read = direction_of_token(trim_spec(direction_token(stored_direction(written))));
            &&& read == Some(stored_direction(written))
            &&& ((written is High || written is Low) ==> read == Some(Direction::Out))
            &&& read != Some(Direction::High)
            &&& read != Some(Direction::Low)
        }),
{
    reveal_strlit("in");
    reveal_strlit("out");
    reveal_strlit("high");
    reveal_strlit("low");
    let stored = stored_direction(written);
    let tok = direction_token(stored);
    assert(trim_spec(tok) == tok);
}

} // verus!

