//! Making nodes that stand at no place in a text yet.

use crate::ast::{
    ArrayExpression, ArrayRangeExpression, BinaryExpression, BinaryOperator, BinaryPart,
    CallExpression, Expr, Identifier, ItemVisibility, NonCodeMeta, ObjectExpression,
    ObjectProperty, PipeExpression, PipeSubstitution, TagDeclarator, UnaryExpression,
    UnaryOperator, VariableDeclaration, VariableDeclarator, VariableKind,
};
use crate::model::{
    ArrayRangeExpressionView, BinaryExpressionView, IdentifierView, PipeSubstitutionView,
    TagDeclaratorView, UnaryExpressionView, VariableDeclaratorView,
};
use vstd::prelude::*;

verus! {

impl Identifier {
    /// An identifier of the name given.
    pub fn new(name: &str) -> (identifier: Self)
        ensures
            identifier@ == (IdentifierView { start: 0, end: 0, name: name@, digest: None }),
    {
        Identifier { start: 0, end: 0, name: name.to_owned(), digest: None }
    }
}

impl TagDeclarator {
    /// A tag of the name given.
    pub fn new(name: &str) -> (tag: Self)
        ensures
            tag@ == (TagDeclaratorView { start: 0, end: 0, name: name@, digest: None }),
    {
        TagDeclarator { start: 0, end: 0, name: name.to_owned(), digest: None }
    }
}

impl PipeSubstitution {
    /// A placeholder.
    pub fn new() -> (placeholder: Self)
        ensures
            placeholder@ == (PipeSubstitutionView { start: 0, end: 0, digest: None }),
    {
        PipeSubstitution { start: 0, end: 0, digest: None }
    }
}

impl Default for PipeSubstitution {
    fn default() -> (placeholder: Self)
        ensures
            placeholder@ == (PipeSubstitutionView { start: 0, end: 0, digest: None }),
    {
        PipeSubstitution::new()
    }
}

impl CallExpression {
    /// A call of the function of the name given with the arguments given.
    pub fn new(name: &str, arguments: Vec<Expr>) -> (call: Self)
        ensures
            call@.start == 0,
            call@.end == 0,
            call@.callee == (IdentifierView { start: 0, end: 0, name: name@, digest: None }),
            call.arguments == arguments,
            !call@.optional,
            call@.digest is None,
    {
        CallExpression {
            start: 0,
            end: 0,
            callee: Identifier::new(name),
            arguments,
            optional: false,
            digest: None,
        }
    }
}

impl VariableDeclaration {
    /// A declaration with the declarators given.
    pub fn new(
        declarations: Vec<VariableDeclarator>,
        visibility: ItemVisibility,
        kind: VariableKind,
    ) -> (declaration: Self)
        ensures
            declaration.start == 0,
            declaration.end == 0,
            declaration.declarations == declarations,
            declaration.visibility == visibility,
            declaration.kind == kind,
            declaration.digest is None,
    {
        VariableDeclaration { start: 0, end: 0, declarations, visibility, kind, digest: None }
    }
}

impl VariableDeclarator {
    /// A declarator that binds the name given to the value given.
    pub fn new(name: &str, init: Expr) -> (declarator: Self)
        ensures
            declarator@ == (VariableDeclaratorView {
                start: 0,
                end: 0,
                id: IdentifierView { start: 0, end: 0, name: name@, digest: None },
                init: init@,
                digest: None,
            }),
    {
        VariableDeclarator { start: 0, end: 0, id: Identifier::new(name), init, digest: None }
    }
}

impl ArrayExpression {
    /// An array of the elements given.
    pub fn new(elements: Vec<Expr>) -> (array: Self)
        ensures
            array.start == 0,
            array.end == 0,
            array.elements == elements,
            array@.non_code_meta.is_empty(),
            array@.non_code_meta.digest is None,
            array.digest is None,
    {
        ArrayExpression { start: 0, end: 0, elements, non_code_meta: NonCodeMeta::new(), digest: None }
    }
}

impl ArrayRangeExpression {
    /// The array from the first value given to the last, which belongs to it.
    pub fn new(start_element: Box<Expr>, end_element: Box<Expr>) -> (range: Self)
        ensures
            range@ == (ArrayRangeExpressionView {
                start: 0,
                end: 0,
                start_element: Box::new(start_element@),
                end_element: Box::new(end_element@),
                end_inclusive: true,
                digest: None,
            }),
    {
        ArrayRangeExpression {
            start: 0,
            end: 0,
            start_element,
            end_element,
            end_inclusive: true,
            digest: None,
        }
    }
}

impl ObjectExpression {
    /// An object of the properties given.
    pub fn new(properties: Vec<ObjectProperty>) -> (object: Self)
        ensures
            object.start == 0,
            object.end == 0,
            object.properties == properties,
            object@.non_code_meta.is_empty(),
            object@.non_code_meta.digest is None,
            object.digest is None,
    {
        ObjectExpression {
            start: 0,
            end: 0,
            properties,
            non_code_meta: NonCodeMeta::new(),
            digest: None,
        }
    }
}

impl BinaryExpression {
    /// The operator between the two operands, from where the left one begins
    /// to where the right one ends.
    pub fn new(operator: BinaryOperator, left: BinaryPart, right: BinaryPart) -> (expression: Self)
        ensures
            expression@ == (BinaryExpressionView {
                start: left@.start(),
                end: right@.end(),
                operator,
                left: left@,
                right: right@,
                digest: None,
            }),
    {
        BinaryExpression { start: left.start(), end: right.end(), operator, left, right, digest: None }
    }
}

impl UnaryExpression {
    /// The operator before the operand, up to where the operand ends.
    pub fn new(operator: UnaryOperator, argument: BinaryPart) -> (expression: Self)
        ensures
            expression@ == (UnaryExpressionView {
                start: 0,
                end: argument@.end(),
                operator,
                argument: argument@,
                digest: None,
            }),
    {
        UnaryExpression { start: 0, end: argument.end(), operator, argument, digest: None }
    }
}

impl PipeExpression {
    /// A pipe of the stages given.
    pub fn new(body: Vec<Expr>) -> (pipe: Self)
        ensures
            pipe.start == 0,
            pipe.end == 0,
            pipe.body == body,
            pipe@.non_code_meta.is_empty(),
            pipe@.non_code_meta.digest is None,
            pipe.digest is None,
    {
        PipeExpression { start: 0, end: 0, body, non_code_meta: NonCodeMeta::new(), digest: None }
    }
}

} // verus!
