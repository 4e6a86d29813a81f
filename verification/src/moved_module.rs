//! A module declaration that moves into another module.

use crate::address::{
    address_expression, address_parses, address_text, dotted, is_built_pair, parsed_expression,
    segment_texts, AddressBuilder,
};
use crate::error::{DeclarationKind, Error};
use crate::text::texts;
use crate::document::{block_body, body_attributes};
use crate::to_moved_block::{is_assembled, is_indented_attribute, Declaration, ToMovedBlock};
use hcl::edit::expr::Expression;
use hcl::edit::structure::Block;
use std::path::PathBuf;
use vstd::prelude::*;

verus! {

/// The address of a module before the move: `module.<name>`.
pub open spec fn module_from_segments(module: Declaration) -> Seq<Seq<char>> {
    seq!["module"@, module.labels[0]]
}

/// The address of a module after the move: `module.<target>.module.<name>`.
pub open spec fn module_to_segments(module: Declaration) -> Seq<Seq<char>> {
    seq!["module"@, module.target_module, "module"@, module.labels[0]]
}

/// A module moves from `module.<name>` to `module.<target>.module.<name>`,
/// whatever the name and the target module are.
pub proof fn module_address_composition(module: Declaration)
    ensures
        address_text(module_from_segments(module)) == "module"@ + "."@ + module.labels[0],
        address_text(module_to_segments(module)) == "module"@ + "."@ + module.target_module
            + "."@ + "module"@ + "."@ + module.labels[0],
{
    let from = module_from_segments(module);
    assert(from.drop_last() =~= seq!["module"@]);
    assert(dotted(from.drop_last()) == "module"@);
    let to = module_to_segments(module);
    let three = to.drop_last();
    let two = three.drop_last();
    assert(three =~= seq!["module"@, module.target_module, "module"@]);
    assert(two =~= seq!["module"@, module.target_module]);
    assert(two.drop_last() =~= seq!["module"@]);
    assert(dotted(two.drop_last()) == "module"@);
    assert(dotted(two) == "module"@ + "."@ + module.target_module);
    assert(dotted(three) == dotted(two) + "."@ + "module"@);
}

/// The `moved` block of a module, whatever its name `X` and the target module `M`
/// are, where the parser accepts both addresses: its first attribute is `from`,
/// indented by two spaces, with the value that the parser gives for
/// `x = module.X`; its second is `to`, indented alike, with the value that the
/// parser gives for `x = module.M.module.X`. Labels after the first play no part.
pub proof fn module_block_composition(module: Declaration, block: Block)
    requires
        address_parses(module_from_segments(module)),
        address_parses(module_to_segments(module)),
        is_assembled(
            Ok(block),
            address_expression(module_from_segments(module)),
            address_expression(module_to_segments(module)),
            module.source_file,
        ),
    ensures
        body_attributes(block_body(block)).len() == 2,
        is_indented_attribute(
            body_attributes(block_body(block))[0],
            "from"@,
            parsed_expression("x = "@ + "module"@ + "."@ + module.labels[0]),
        ),
        is_indented_attribute(
            body_attributes(block_body(block))[1],
            "to"@,
            parsed_expression(
                "x = "@ + "module"@ + "."@ + module.target_module + "."@ + "module"@ + "."@
                    + module.labels[0],
            ),
        ),
{
    module_address_composition(module);
    let local = "module"@ + "."@ + module.labels[0];
    assert("x = "@ + local =~= "x = "@ + "module"@ + "."@ + module.labels[0]);
    let moved = "module"@ + "."@ + module.target_module + "."@ + "module"@ + "."@
        + module.labels[0];
    assert("x = "@ + moved =~= "x = "@ + "module"@ + "."@ + module.target_module + "."@
        + "module"@ + "."@ + module.labels[0]);
}

/// A module block that is to be moved into a module. It has at least one label:
/// the module name.
#[derive(Debug)]
pub struct MovedModule {
    labels: Vec<String>,
    file_path: PathBuf,
    target_module_name: String,
}

impl View for MovedModule {
    type V = Declaration;

    closed spec fn view(&self) -> Declaration {
        Declaration {
            labels: texts(self.labels@),
            source_file: self.file_path,
            target_module: self.target_module_name@,
        }
    }
}

impl MovedModule {
    #[verifier::type_invariant]
    spec fn has_name(self) -> bool {
        self.labels@.len() >= 1
    }

    /// A module with the given labels, found in `file_path`, that moves into the
    /// module `target_module_name`.
    ///
    /// Fails with `InvalidLabelArity` exactly where there is no label.
    pub fn new(labels: Vec<String>, file_path: PathBuf, target_module_name: String) -> (result:
        Result<Self, Error>)
        ensures
            match result {
                Ok(module) => labels@.len() >= 1 && module@ == (Declaration {
                    labels: texts(labels@),
                    source_file: file_path,
                    target_module: target_module_name@,
                }),
                Err(error) => labels@.len() < 1 && error == (Error::InvalidLabelArity {
                    kind: DeclarationKind::Module,
                    source_file: None,
                }),
            },
    {
        if labels.is_empty() {
            return Err(
                Error::InvalidLabelArity { kind: DeclarationKind::Module, source_file: None },
            );
        }
        Ok(MovedModule { labels, file_path, target_module_name })
    }

    /// All labels of the block.
    pub fn labels(&self) -> (labels: &[String])
        ensures
            texts(labels@) == self@.labels,
            labels@.len() >= 1,
    {
        proof {
            use_type_invariant(self);
        }
        self.labels.as_slice()
    }

    /// The name that the module has where it is declared: the first label.
    pub fn module_name_local(&self) -> (name: &str)
        ensures
            self@.labels.len() >= 1,
            name@ == self@.labels[0],
    {
        proof {
            use_type_invariant(self);
        }
        self.labels[0].as_str()
    }

    /// The segments of the address before the move.
    fn from_address(&self) -> (segments: Vec<&str>)
        ensures
            segment_texts(segments@) == module_from_segments(self@),
    {
        proof {
            use_type_invariant(self);
        }
        let mut segments: Vec<&str> = Vec::new();
        segments.push("module");
        segments.push(self.labels[0].as_str());
        assert(segment_texts(segments@) =~= module_from_segments(self@));
        segments
    }

    /// Both address expressions of the module, each parsed once; or, where the
    /// parser does not accept one of them, the text of the first that it refuses.
    pub fn try_expressions(&self) -> (result: Result<(Expression, Expression), String>)
        ensures
            is_built_pair(result, module_from_segments(self@), module_to_segments(self@)),
    {
        AddressBuilder::new().try_build_both(
            self.from_address().as_slice(),
            self.to_address().as_slice(),
        )
    }

    fn build_from_expression(&self) -> (expression: Expression)
        requires
            address_parses(module_from_segments(self@)),
        ensures
            expression == address_expression(module_from_segments(self@)),
    {
        AddressBuilder::new().build(self.from_address().as_slice())
    }

    /// The segments of the address after the move.
    fn to_address(&self) -> (segments: Vec<&str>)
        ensures
            segment_texts(segments@) == module_to_segments(self@),
    {
        proof {
            use_type_invariant(self);
        }
        let mut segments: Vec<&str> = Vec::new();
        segments.push("module");
        segments.push(self.target_module_name.as_str());
        segments.push("module");
        segments.push(self.labels[0].as_str());
        assert(segment_texts(segments@) =~= module_to_segments(self@));
        segments
    }

    fn build_to_expression(&self) -> (expression: Expression)
        requires
            address_parses(module_to_segments(self@)),
        ensures
            expression == address_expression(module_to_segments(self@)),
    {
        AddressBuilder::new().build(self.to_address().as_slice())
    }
}

impl Clone for MovedModule {
    fn clone(&self) -> (copy: Self)
        ensures
            copy@ == self@,
    {
        proof {
            use_type_invariant(self);
        }
        let labels = self.labels.clone();
        assert(labels@ =~= self.labels@);
        MovedModule {
            labels,
            file_path: self.file_path.clone(),
            target_module_name: self.target_module_name.clone(),
        }
    }
}

impl ToMovedBlock for MovedModule {
    open spec fn from_segments(&self) -> Seq<Seq<char>> {
        module_from_segments(self@)
    }

    open spec fn to_segments(&self) -> Seq<Seq<char>> {
        module_to_segments(self@)
    }

    open spec fn source_file(&self) -> PathBuf {
        self@.source_file
    }

    fn from_expression(&self) -> (expression: Expression) {
        self.build_from_expression()
    }

    fn to_expression(&self) -> (expression: Expression) {
        self.build_to_expression()
    }

    fn file_path(&self) -> (path: &PathBuf) {
        &self.file_path
    }

    fn addresses_parse(&self) -> (accepted: bool) {
        let builder = AddressBuilder::new();
        builder.try_build(self.from_address().as_slice()).is_some() && builder.try_build(
            self.to_address().as_slice(),
        ).is_some()
    }
}

} // verus!
