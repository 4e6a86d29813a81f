//! Address expressions: dotted traversals such as `module.compute.aws_instance.web`.
//!
//! An address is built from name segments. The segments are joined with `.`, the
//! result is written as the value of an attribute, and the HCL parser turns that
//! attribute into an expression node.

use crate::document::{
    attribute_value, body_attributes, parse_body, parse_body_result, read_attribute_values,
};
use hcl::edit::expr::Expression;
use vstd::prelude::*;

verus! {

/// The texts of a slice of segments.
pub open spec fn segment_texts(segments: Seq<&str>) -> Seq<Seq<char>> {
    segments.map_values(|segment: &str| segment@)
}

/// The segments joined with `.` between them.
pub open spec fn dotted(segments: Seq<Seq<char>>) -> Seq<char>
    decreases segments.len(),
{
    if segments.len() == 0 {
        Seq::empty()
    } else if segments.len() == 1 {
        segments[0]
    } else {
        dotted(segments.drop_last()) + "."@ + segments.last()
    }
}

/// The text of the address: the placeholder `x` for no segments, else the dotted path.
pub open spec fn address_text(segments: Seq<Seq<char>>) -> Seq<char> {
    if segments.len() == 0 {
        "x"@
    } else {
        dotted(segments)
    }
}

/// The attribute that is handed to the parser: `x = <address>`.
pub open spec fn attribute_source(segments: Seq<Seq<char>>) -> Seq<char> {
    "x = "@ + address_text(segments)
}

/// Whether the parser accepts the attribute written for these segments.
pub open spec fn address_parses(segments: Seq<Seq<char>>) -> bool {
    match parse_body_result(attribute_source(segments)) {
        Ok(body) => body_attributes(body).len() > 0,
        Err(_) => false,
    }
}

/// The expression that the parser gives for the source text of an attribute: the
/// value of the first attribute of the parsed body.
pub open spec fn parsed_expression(source: Seq<char>) -> Expression {
    attribute_value(body_attributes(parse_body_result(source)->Ok_0)[0])
}

/// The expression that the parser gives for these segments.
pub open spec fn address_expression(segments: Seq<Seq<char>>) -> Expression
    recommends
        address_parses(segments),
{
    parsed_expression(attribute_source(segments))
}

/// The text of the first of two addresses that the parser does not accept, if
/// there is one.
pub open spec fn refused_address(from: Seq<Seq<char>>, to: Seq<Seq<char>>) -> Option<Seq<char>> {
    if !address_parses(from) {
        Some(address_text(from))
    } else if !address_parses(to) {
        Some(address_text(to))
    } else {
        None
    }
}

/// Whether `result` is what building two addresses gives: both expressions, or the
/// text of the first address that the parser refuses.
pub open spec fn is_built_pair(
    result: Result<(Expression, Expression), String>,
    from: Seq<Seq<char>>,
    to: Seq<Seq<char>>,
) -> bool {
    match result {
        Ok((from_expression, to_expression)) => {
            &&& address_parses(from)
            &&& address_parses(to)
            &&& from_expression == address_expression(from)
            &&& to_expression == address_expression(to)
        },
        Err(text) => refused_address(from, to) == Some(text@),
    }
}

/// Builds address expressions from name segments. It has no state.
pub struct AddressBuilder;

impl AddressBuilder {
    /// A builder.
    pub fn new() -> (builder: Self)
        ensures
            builder == AddressBuilder,
    {
        AddressBuilder
    }

    /// The text of the address for the given segments: the segments joined with
    /// `.`, or the placeholder `x` for no segments.
    pub fn address(&self, segments: &[&str]) -> (text: String)
        ensures
            text@ == address_text(segment_texts(segments@)),
    {
        let ghost texts = segment_texts(segments@);
        if segments.len() == 0 {
            return String::from_str("x");
        }
        let mut text = String::from_str(segments[0]);
        assert(texts.take(1) =~= seq![texts[0]]);
        let mut i: usize = 1;
        while i < segments.len()
            invariant
                1 <= i <= segments.len(),
                texts == segment_texts(segments@),
                text@ == dotted(texts.take(i as int)),
            decreases segments.len() - i,
        {
            assert(texts.take(i + 1).drop_last() =~= texts.take(i as int));
            text.append(".");
            text.append(segments[i]);
            i += 1;
        }
        assert(texts.take(i as int) =~= texts);
        text
    }

    /// The source text that is handed to the parser for the given segments:
    /// `x = <address>`.
    pub fn source(&self, segments: &[&str]) -> (text: String)
        ensures
            text@ == attribute_source(segment_texts(segments@)),
    {
        let mut text = String::from_str("x = ");
        let address = self.address(segments);
        text.append(address.as_str());
        text
    }

    /// The expression for the given segments.
    ///
    /// The parser must accept the address; `try_build` tests that first.
    pub fn build(&self, segments: &[&str]) -> (expression: Expression)
        requires
            address_parses(segment_texts(segments@)),
        ensures
            expression == address_expression(segment_texts(segments@)),
    {
        let source = self.source(segments);
        let body = parse_body(source.as_str()).unwrap();
        let mut values = read_attribute_values(&body);
        values.remove(0)
    }

    /// The expression for the given segments, or `None` where the parser does not
    /// accept the address. The address is parsed once.
    pub fn try_build(&self, segments: &[&str]) -> (expression: Option<Expression>)
        ensures
            expression == if address_parses(segment_texts(segments@)) {
                Some(address_expression(segment_texts(segments@)))
            } else {
                None
            },
    {
        let source = self.source(segments);
        match parse_body(source.as_str()) {
            Ok(body) => {
                let mut values = read_attribute_values(&body);
                if values.len() > 0 {
                    Some(values.remove(0))
                } else {
                    None
                }
            },
            Err(_) => None,
        }
    }

    /// The expressions for two addresses, each parsed once; or, where the parser
    /// does not accept one of them, the text of the first that it refuses.
    pub fn try_build_both(&self, from: &[&str], to: &[&str]) -> (result: Result<
        (Expression, Expression),
        String,
    >)
        ensures
            is_built_pair(result, segment_texts(from@), segment_texts(to@)),
    {
        let from_expression = match self.try_build(from) {
            Some(expression) => expression,
            None => {
                return Err(self.address(from));
            },
        };
        let to_expression = match self.try_build(to) {
            Some(expression) => expression,
            None => {
                return Err(self.address(to));
            },
        };
        Ok((from_expression, to_expression))
    }
}

} // verus!
