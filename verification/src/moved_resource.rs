//! A resource declaration that moves into a module.

use crate::address::{
    address_expression, address_parses, address_text, dotted, is_built_pair, parsed_expression,
    segment_texts, AddressBuilder,
};
use crate::error::{DeclarationKind, Error};
use crate::text::texts;
use crate::document::{block_body, body_attributes};
use crate::to_moved_block::{is_assembled, is_indented_attribute, Declaration, ToMovedBlock};
use hcl::edit::expr::Expression;
use hcl::edit::structure::Block;
use std::path::PathBuf;
use vstd::prelude::*;

verus! {

/// The address of a resource before the move: `<type>.<name>`.
pub open spec fn resource_from_segments(resource: Declaration) -> Seq<Seq<char>> {
    seq![resource.labels[0], resource.labels[1]]
}

/// The address of a resource after the move: `module.<target>.<type>.<name>`.
pub open spec fn resource_to_segments(resource: Declaration) -> Seq<Seq<char>> {
    seq!["module"@, resource.target_module, resource.labels[0], resource.labels[1]]
}

/// A resource moves from `<type>.<name>` to `module.<target>.<type>.<name>`,
/// whatever the type, the name and the target module are.
pub proof fn resource_address_composition(resource: Declaration)
    ensures
        address_text(resource_from_segments(resource)) == resource.labels[0] + "."@
            + resource.labels[1],
        address_text(resource_to_segments(resource)) == "module"@ + "."@
            + resource.target_module + "."@ + resource.labels[0] + "."@
            + resource.labels[1],
{
    let from = resource_from_segments(resource);
    assert(from.drop_last() =~= seq![resource.labels[0]]);
    assert(dotted(from.drop_last()) == resource.labels[0]);
    let to = resource_to_segments(resource);
    let three = to.drop_last();
    let two = three.drop_last();
    assert(three =~= seq!["module"@, resource.target_module, resource.labels[0]]);
    assert(two =~= seq!["module"@, resource.target_module]);
    assert(two.drop_last() =~= seq!["module"@]);
    assert(dotted(two.drop_last()) == "module"@);
    assert(dotted(two) == "module"@ + "."@ + resource.target_module);
    assert(dotted(three) == dotted(two) + "."@ + resource.labels[0]);
}

/// The `moved` block of a resource, whatever its type `T`, its name `N` and the
/// target module `M` are, where the parser accepts both addresses: its first
/// attribute is `from`, indented by two spaces, with the value that the parser
/// gives for `x = T.N`; its second is `to`, indented alike, with the value that
/// the parser gives for `x = module.M.T.N`. Labels after the second play no part.
pub proof fn resource_block_composition(resource: Declaration, block: Block)
    requires
        address_parses(resource_from_segments(resource)),
        address_parses(resource_to_segments(resource)),
        is_assembled(
            Ok(block),
            address_expression(resource_from_segments(resource)),
            address_expression(resource_to_segments(resource)),
            resource.source_file,
        ),
    ensures
        body_attributes(block_body(block)).len() == 2,
        is_indented_attribute(
            body_attributes(block_body(block))[0],
            "from"@,
            parsed_expression("x = "@ + resource.labels[0] + "."@ + resource.labels[1]),
        ),
        is_indented_attribute(
            body_attributes(block_body(block))[1],
            "to"@,
            parsed_expression(
                "x = "@ + "module"@ + "."@ + resource.target_module + "."@ + resource.labels[0]
                    + "."@ + resource.labels[1],
            ),
        ),
{
    resource_address_composition(resource);
    let type_and_name = resource.labels[0] + "."@ + resource.labels[1];
    assert("x = "@ + type_and_name =~= "x = "@ + resource.labels[0] + "."@ + resource.labels[1]);
    let moved = "module"@ + "."@ + resource.target_module + "."@ + resource.labels[0] + "."@
        + resource.labels[1];
    assert("x = "@ + moved =~= "x = "@ + "module"@ + "."@ + resource.target_module + "."@
        + resource.labels[0] + "."@ + resource.labels[1]);
}

/// A resource block that is to be moved into a module. It has at least two
/// labels: the resource type and the resource name.
#[derive(Debug)]
pub struct MovedResource {
    labels: Vec<String>,
    file_path: PathBuf,
    target_module_name: String,
}

impl View for MovedResource {
    type V = Declaration;

    closed spec fn view(&self) -> Declaration {
        Declaration {
            labels: texts(self.labels@),
            source_file: self.file_path,
            target_module: self.target_module_name@,
        }
    }
}

impl MovedResource {
    #[verifier::type_invariant]
    spec fn has_type_and_name(self) -> bool {
        self.labels@.len() >= 2
    }

    /// A resource with the given labels, found in `file_path`, that moves into the
    /// module `target_module_name`.
    ///
    /// Fails with `InvalidLabelArity` exactly where there are fewer than two labels.
    pub fn new(labels: Vec<String>, file_path: PathBuf, target_module_name: String) -> (result:
        Result<Self, Error>)
        ensures
            match result {
                Ok(resource) => labels@.len() >= 2 && resource@ == (Declaration {
                    labels: texts(labels@),
                    source_file: file_path,
                    target_module: target_module_name@,
                }),
                Err(error) => labels@.len() < 2 && error == (Error::InvalidLabelArity {
                    kind: DeclarationKind::Resource,
                    source_file: None,
                }),
            },
    {
        if labels.len() < 2 {
            return Err(
                Error::InvalidLabelArity { kind: DeclarationKind::Resource, source_file: None },
            );
        }
        Ok(MovedResource { labels, file_path, target_module_name })
    }

    /// All labels of the block.
    pub fn labels(&self) -> (labels: &[String])
        ensures
            texts(labels@) == self@.labels,
            labels@.len() >= 2,
    {
        proof {
            use_type_invariant(self);
        }
        self.labels.as_slice()
    }

    /// The resource type: the first label.
    pub fn resource_type(&self) -> (name: &str)
        ensures
            self@.labels.len() >= 2,
            name@ == self@.labels[0],
    {
        proof {
            use_type_invariant(self);
        }
        self.labels[0].as_str()
    }

    /// The resource name: the second label.
    pub fn resource_name(&self) -> (name: &str)
        ensures
            self@.labels.len() >= 2,
            name@ == self@.labels[1],
    {
        proof {
            use_type_invariant(self);
        }
        self.labels[1].as_str()
    }

    /// The segments of the address before the move.
    fn from_address(&self) -> (segments: Vec<&str>)
        ensures
            segment_texts(segments@) == resource_from_segments(self@),
    {
        proof {
            use_type_invariant(self);
        }
        let mut segments: Vec<&str> = Vec::new();
        segments.push(self.labels[0].as_str());
        segments.push(self.labels[1].as_str());
        assert(segment_texts(segments@) =~= resource_from_segments(self@));
        segments
    }

    /// Both address expressions of the resource, each parsed once; or, where the
    /// parser does not accept one of them, the text of the first that it refuses.
    pub fn try_expressions(&self) -> (result: Result<(Expression, Expression), String>)
        ensures
            is_built_pair(result, resource_from_segments(self@), resource_to_segments(self@)),
    {
        AddressBuilder::new().try_build_both(
            self.from_address().as_slice(),
            self.to_address().as_slice(),
        )
    }

    fn build_from_expression(&self) -> (expression: Expression)
        requires
            address_parses(resource_from_segments(self@)),
        ensures
            expression == address_expression(resource_from_segments(self@)),
    {
        AddressBuilder::new().build(self.from_address().as_slice())
    }

    /// The segments of the address after the move.
    fn to_address(&self) -> (segments: Vec<&str>)
        ensures
            segment_texts(segments@) == resource_to_segments(self@),
    {
        proof {
            use_type_invariant(self);
        }
        let mut segments: Vec<&str> = Vec::new();
        segments.push("module");
        segments.push(self.target_module_name.as_str());
        segments.push(self.labels[0].as_str());
        segments.push(self.labels[1].as_str());
        assert(segment_texts(segments@) =~= resource_to_segments(self@));
        segments
    }

    fn build_to_expression(&self) -> (expression: Expression)
        requires
            address_parses(resource_to_segments(self@)),
        ensures
            expression == address_expression(resource_to_segments(self@)),
    {
        AddressBuilder::new().build(self.to_address().as_slice())
    }
}

impl Clone for MovedResource {
    fn clone(&self) -> (copy: Self)
        ensures
            copy@ == self@,
    {
        proof {
            use_type_invariant(self);
        }
        let labels = self.labels.clone();
        assert(labels@ =~= self.labels@);
        MovedResource {
            labels,
            file_path: self.file_path.clone(),
            target_module_name: self.target_module_name.clone(),
        }
    }
}

impl ToMovedBlock for MovedResource {
    open spec fn from_segments(&self) -> Seq<Seq<char>> {
        resource_from_segments(self@)
    }

    open spec fn to_segments(&self) -> Seq<Seq<char>> {
        resource_to_segments(self@)
    }

    open spec fn source_file(&self) -> PathBuf {
        self@.source_file
    }

    fn from_expression(&self) -> (expression: Expression) {
        self.build_from_expression()
    }

    fn to_expression(&self) -> (expression: Expression) {
        self.build_to_expression()
    }

    fn file_path(&self) -> (path: &PathBuf) {
        &self.file_path
    }

    fn addresses_parse(&self) -> (accepted: bool) {
        let builder = AddressBuilder::new();
        builder.try_build(self.from_address().as_slice()).is_some() && builder.try_build(
            self.to_address().as_slice(),
        ).is_some()
    }
}

} // verus!
