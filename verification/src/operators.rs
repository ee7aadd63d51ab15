//! Operators and the other small sets of names: how they are written, how
//! they bind, and what stands for them in a digest.

use crate::ast::{
    Associativity, BinaryExpression, BinaryOperator, CommentStyle, FnArgPrimitive, ItemVisibility,
    UnaryOperator, VariableKind,
};
use crate::text::str_eq;
use vstd::prelude::*;

verus! {

impl BinaryOperator {
    /// The operator as it is written.
    pub open spec fn name(self) -> Seq<char> {
        match self {
            BinaryOperator::Add => "+"@,
            BinaryOperator::Sub => "-"@,
            BinaryOperator::Mul => "*"@,
            BinaryOperator::Div => "/"@,
            BinaryOperator::Mod => "%"@,
            BinaryOperator::Pow => "^"@,
            BinaryOperator::Eq => "=="@,
            BinaryOperator::Neq => "!="@,
            BinaryOperator::Gt => ">"@,
            BinaryOperator::Gte => ">="@,
            BinaryOperator::Lt => "<"@,
            BinaryOperator::Lte => "<="@,
        }
    }

    /// The operator that is written as the text given, if there is one.
    pub open spec fn named(text: Seq<char>) -> Option<BinaryOperator> {
        if text == "+"@ {
            Some(BinaryOperator::Add)
        } else if text == "-"@ {
            Some(BinaryOperator::Sub)
        } else if text == "*"@ {
            Some(BinaryOperator::Mul)
        } else if text == "/"@ {
            Some(BinaryOperator::Div)
        } else if text == "%"@ {
            Some(BinaryOperator::Mod)
        } else if text == "^"@ {
            Some(BinaryOperator::Pow)
        } else if text == "=="@ {
            Some(BinaryOperator::Eq)
        } else if text == "!="@ {
            Some(BinaryOperator::Neq)
        } else if text == ">"@ {
            Some(BinaryOperator::Gt)
        } else if text == ">="@ {
            Some(BinaryOperator::Gte)
        } else if text == "<"@ {
            Some(BinaryOperator::Lt)
        } else if text == "<="@ {
            Some(BinaryOperator::Lte)
        } else {
            None
        }
    }

    /// The operator as it is written.
    pub fn to_string(&self) -> (text: String)
        ensures
            text@ == self.name(),
    {
        match self {
            BinaryOperator::Add => "+".to_owned(),
            BinaryOperator::Sub => "-".to_owned(),
            BinaryOperator::Mul => "*".to_owned(),
            BinaryOperator::Div => "/".to_owned(),
            BinaryOperator::Mod => "%".to_owned(),
            BinaryOperator::Pow => "^".to_owned(),
            BinaryOperator::Eq => "==".to_owned(),
            BinaryOperator::Neq => "!=".to_owned(),
            BinaryOperator::Gt => ">".to_owned(),
            BinaryOperator::Gte => ">=".to_owned(),
            BinaryOperator::Lt => "<".to_owned(),
            BinaryOperator::Lte => "<=".to_owned(),
        }
    }

    /// The operator that is written as the text given. `None` where the text is
    /// none of them.
    pub fn from_str(text: &str) -> (parsed: Option<BinaryOperator>)
        ensures
            parsed == BinaryOperator::named(text@),
    {
        if str_eq(text, "+") {
            Some(BinaryOperator::Add)
        } else if str_eq(text, "-") {
            Some(BinaryOperator::Sub)
        } else if str_eq(text, "*") {
            Some(BinaryOperator::Mul)
        } else if str_eq(text, "/") {
            Some(BinaryOperator::Div)
        } else if str_eq(text, "%") {
            Some(BinaryOperator::Mod)
        } else if str_eq(text, "^") {
            Some(BinaryOperator::Pow)
        } else if str_eq(text, "==") {
            Some(BinaryOperator::Eq)
        } else if str_eq(text, "!=") {
            Some(BinaryOperator::Neq)
        } else if str_eq(text, ">") {
            Some(BinaryOperator::Gt)
        } else if str_eq(text, ">=") {
            Some(BinaryOperator::Gte)
        } else if str_eq(text, "<") {
            Some(BinaryOperator::Lt)
        } else if str_eq(text, "<=") {
            Some(BinaryOperator::Lte)
        } else {
            None
        }
    }

    /// The three bytes that stand for the operator in a digest, as a model.
    pub open spec fn digest_id(self) -> Seq<u8> {
        match self {
            BinaryOperator::Add => seq![97u8, 100u8, 100u8],
            BinaryOperator::Sub => seq![115u8, 117u8, 98u8],
            BinaryOperator::Mul => seq![109u8, 117u8, 108u8],
            BinaryOperator::Div => seq![100u8, 105u8, 118u8],
            BinaryOperator::Mod => seq![109u8, 111u8, 100u8],
            BinaryOperator::Pow => seq![112u8, 111u8, 119u8],
            BinaryOperator::Eq => seq![101u8, 113u8, 113u8],
            BinaryOperator::Neq => seq![110u8, 101u8, 113u8],
            BinaryOperator::Gt => seq![103u8, 116u8, 114u8],
            BinaryOperator::Gte => seq![103u8, 116u8, 101u8],
            BinaryOperator::Lt => seq![108u8, 116u8, 114u8],
            BinaryOperator::Lte => seq![108u8, 116u8, 101u8],
        }
    }

    /// The three bytes that stand for the operator in a digest: three letters,
    /// no two operators the same.
    pub fn digestable_id(&self) -> (id: [u8; 3])
        ensures
            id@ == self.digest_id(),
    {
        match self {
            // "add"
            BinaryOperator::Add => [97, 100, 100],
            // "sub"
            BinaryOperator::Sub => [115, 117, 98],
            // "mul"
            BinaryOperator::Mul => [109, 117, 108],
            // "div"
            BinaryOperator::Div => [100, 105, 118],
            // "mod"
            BinaryOperator::Mod => [109, 111, 100],
            // "pow"
            BinaryOperator::Pow => [112, 111, 119],
            // "eqq"
            BinaryOperator::Eq => [101, 113, 113],
            // "neq"
            BinaryOperator::Neq => [110, 101, 113],
            // "gtr"
            BinaryOperator::Gt => [103, 116, 114],
            // "gte"
            BinaryOperator::Gte => [103, 116, 101],
            // "ltr"
            BinaryOperator::Lt => [108, 116, 114],
            // "lte"
            BinaryOperator::Lte => [108, 116, 101],
        }
    }

    /// How tightly the operator binds, as a model: the higher, the tighter.
    pub open spec fn binding(self) -> u8 {
        match self {
            BinaryOperator::Add | BinaryOperator::Sub => 11,
            BinaryOperator::Mul | BinaryOperator::Div | BinaryOperator::Mod => 12,
            BinaryOperator::Pow => 13,
            BinaryOperator::Gt | BinaryOperator::Gte | BinaryOperator::Lt | BinaryOperator::Lte => 9,
            BinaryOperator::Eq | BinaryOperator::Neq => 8,
        }
    }

    /// How tightly the operator binds: the higher, the tighter.
    pub fn precedence(&self) -> (level: u8)
        ensures
            level == self.binding(),
    {
        match self {
            BinaryOperator::Add | BinaryOperator::Sub => 11,
            BinaryOperator::Mul | BinaryOperator::Div | BinaryOperator::Mod => 12,
            BinaryOperator::Pow => 13,
            BinaryOperator::Gt | BinaryOperator::Gte | BinaryOperator::Lt | BinaryOperator::Lte => 9,
            BinaryOperator::Eq | BinaryOperator::Neq => 8,
        }
    }

    /// To which side a chain of the operator is read: a power to the right, all
    /// others to the left.
    pub fn associativity(&self) -> (side: Associativity)
        ensures
            side == if self == BinaryOperator::Pow {
                Associativity::Right
            } else {
                Associativity::Left
            },
    {
        match self {
            BinaryOperator::Pow => Associativity::Right,
            _ => Associativity::Left,
        }
    }
}

impl Associativity {
    /// Whether a chain is read to the left.
    pub fn is_left(&self) -> (left: bool)
        ensures
            left == (self == Associativity::Left),
    {
        match self {
            Associativity::Left => true,
            Associativity::Right => false,
        }
    }
}

impl BinaryExpression {
    /// How tightly the operator of the expression binds.
    pub fn precedence(&self) -> (level: u8)
        ensures
            level == self.operator.binding(),
    {
        self.operator.precedence()
    }
}

impl UnaryOperator {
    /// The operator as it is written.
    pub open spec fn name(self) -> Seq<char> {
        match self {
            UnaryOperator::Neg => "-"@,
            UnaryOperator::Not => "!"@,
        }
    }

    /// The operator that is written as the text given, if there is one.
    pub open spec fn named(text: Seq<char>) -> Option<UnaryOperator> {
        if text == "-"@ {
            Some(UnaryOperator::Neg)
        } else if text == "!"@ {
            Some(UnaryOperator::Not)
        } else {
            None
        }
    }

    /// The operator as it is written.
    pub fn to_string(&self) -> (text: String)
        ensures
            text@ == self.name(),
    {
        match self {
            UnaryOperator::Neg => "-".to_owned(),
            UnaryOperator::Not => "!".to_owned(),
        }
    }

    /// The operator that is written as the text given. `None` where the text is
    /// none of them.
    pub fn from_str(text: &str) -> (parsed: Option<UnaryOperator>)
        ensures
            parsed == UnaryOperator::named(text@),
    {
        if str_eq(text, "-") {
            Some(UnaryOperator::Neg)
        } else if str_eq(text, "!") {
            Some(UnaryOperator::Not)
        } else {
            None
        }
    }

    /// The three bytes that stand for the operator in a digest, as a model.
    pub open spec fn digest_id(self) -> Seq<u8> {
        match self {
            UnaryOperator::Neg => seq![110u8, 101u8, 103u8],
            UnaryOperator::Not => seq![110u8, 111u8, 116u8],
        }
    }

    /// The three bytes that stand for the operator in a digest.
    pub fn digestable_id(&self) -> (id: [u8; 3])
        ensures
            id@ == self.digest_id(),
    {
        match self {
            // "neg"
            UnaryOperator::Neg => [110, 101, 103],
            // "not"
            UnaryOperator::Not => [110, 111, 116],
        }
    }
}

impl ItemVisibility {
    /// The visibility as it is written.
    pub open spec fn name(self) -> Seq<char> {
        match self {
            ItemVisibility::Default => "default"@,
            ItemVisibility::Export => "export"@,
        }
    }

    /// The visibility that is written as the text given, if there is one.
    pub open spec fn named(text: Seq<char>) -> Option<ItemVisibility> {
        if text == "default"@ {
            Some(ItemVisibility::Default)
        } else if text == "export"@ {
            Some(ItemVisibility::Export)
        } else {
            None
        }
    }

    /// The visibility as it is written.
    pub fn to_string(&self) -> (text: String)
        ensures
            text@ == self.name(),
    {
        match self {
            ItemVisibility::Default => "default".to_owned(),
            ItemVisibility::Export => "export".to_owned(),
        }
    }

    /// The visibility that is written as the text given. `None` where the text is
    /// none of them.
    pub fn from_str(text: &str) -> (parsed: Option<ItemVisibility>)
        ensures
            parsed == ItemVisibility::named(text@),
    {
        if str_eq(text, "default") {
            Some(ItemVisibility::Default)
        } else if str_eq(text, "export") {
            Some(ItemVisibility::Export)
        } else {
            None
        }
    }

    /// Whether this is the visibility that a declaration has where none is
    /// written.
    pub fn is_default(&self) -> (default: bool)
        ensures
            default == (self == ItemVisibility::Default),
    {
        match self {
            ItemVisibility::Default => true,
            ItemVisibility::Export => false,
        }
    }

    /// The byte that stands for the visibility in a digest, as a model.
    pub open spec fn digest_id(self) -> Seq<u8> {
        match self {
            ItemVisibility::Default => seq![0u8],
            ItemVisibility::Export => seq![1u8],
        }
    }

    /// The byte that stands for the visibility in a digest.
    pub fn digestable_id(&self) -> (id: [u8; 1])
        ensures
            id@ == self.digest_id(),
    {
        match self {
            ItemVisibility::Default => [0],
            ItemVisibility::Export => [1],
        }
    }
}

impl Default for ItemVisibility {
    fn default() -> (visibility: Self)
        ensures
            visibility == ItemVisibility::Default,
    {
        ItemVisibility::Default
    }
}

impl VariableKind {
    /// The kind as it is written.
    pub open spec fn name(self) -> Seq<char> {
        match self {
            VariableKind::Const => "const"@,
            VariableKind::Fn => "fn"@,
        }
    }

    /// The kind that is written as the text given, if there is one.
    pub open spec fn named(text: Seq<char>) -> Option<VariableKind> {
        if text == "const"@ {
            Some(VariableKind::Const)
        } else if text == "fn"@ {
            Some(VariableKind::Fn)
        } else {
            None
        }
    }

    /// The kind as it is written.
    pub fn to_string(&self) -> (text: String)
        ensures
            text@ == self.name(),
    {
        match self {
            VariableKind::Const => "const".to_owned(),
            VariableKind::Fn => "fn".to_owned(),
        }
    }

    /// The kind that is written as the text given. `None` where the text is
    /// none of them.
    pub fn from_str(text: &str) -> (parsed: Option<VariableKind>)
        ensures
            parsed == VariableKind::named(text@),
    {
        if str_eq(text, "const") {
            Some(VariableKind::Const)
        } else if str_eq(text, "fn") {
            Some(VariableKind::Fn)
        } else {
            None
        }
    }

    /// The byte that stands for the kind in a digest, as a model.
    pub open spec fn digest_id(self) -> Seq<u8> {
        match self {
            VariableKind::Const => seq![2u8],
            VariableKind::Fn => seq![3u8],
        }
    }

    /// The byte that stands for the kind in a digest.
    pub fn digestable_id(&self) -> (id: [u8; 1])
        ensures
            id@ == self.digest_id(),
    {
        match self {
            VariableKind::Const => [2],
            VariableKind::Fn => [3],
        }
    }
}

impl CommentStyle {
    /// The two bytes that stand for the style in a digest, as a model.
    pub open spec fn digest_id(self) -> Seq<u8> {
        match self {
            CommentStyle::Line => seq![47u8, 47u8],
            CommentStyle::Block => seq![47u8, 42u8],
        }
    }

    /// The two bytes that stand for the style in a digest: the two characters
    /// that such a comment begins with.
    pub fn digestable_id(&self) -> (id: [u8; 2])
        ensures
            id@ == self.digest_id(),
    {
        match self {
            // "//"
            CommentStyle::Line => [47, 47],
            // "/*"
            CommentStyle::Block => [47, 42],
        }
    }
}

impl FnArgPrimitive {
    /// The type as it is written.
    pub open spec fn name(self) -> Seq<char> {
        match self {
            FnArgPrimitive::String => "string"@,
            FnArgPrimitive::Number => "number"@,
            FnArgPrimitive::Boolean => "bool"@,
            FnArgPrimitive::Tag => "tag"@,
            FnArgPrimitive::Sketch => "sketch"@,
            FnArgPrimitive::SketchSurface => "sketch_surface"@,
            FnArgPrimitive::Solid => "solid"@,
        }
    }

    /// The type that is written as the text given, if there is one.
    pub open spec fn named(text: Seq<char>) -> Option<FnArgPrimitive> {
        if text == "string"@ {
            Some(FnArgPrimitive::String)
        } else if text == "number"@ {
            Some(FnArgPrimitive::Number)
        } else if text == "bool"@ {
            Some(FnArgPrimitive::Boolean)
        } else if text == "tag"@ {
            Some(FnArgPrimitive::Tag)
        } else if text == "sketch"@ {
            Some(FnArgPrimitive::Sketch)
        } else if text == "sketch_surface"@ {
            Some(FnArgPrimitive::SketchSurface)
        } else if text == "solid"@ {
            Some(FnArgPrimitive::Solid)
        } else {
            None
        }
    }

    /// The type as it is written.
    pub fn to_string(&self) -> (text: String)
        ensures
            text@ == self.name(),
    {
        match self {
            FnArgPrimitive::String => "string".to_owned(),
            FnArgPrimitive::Number => "number".to_owned(),
            FnArgPrimitive::Boolean => "bool".to_owned(),
            FnArgPrimitive::Tag => "tag".to_owned(),
            FnArgPrimitive::Sketch => "sketch".to_owned(),
            FnArgPrimitive::SketchSurface => "sketch_surface".to_owned(),
            FnArgPrimitive::Solid => "solid".to_owned(),
        }
    }

    /// The type that is written as the text given. `None` where the text is
    /// none of them.
    pub fn from_str(text: &str) -> (parsed: Option<FnArgPrimitive>)
        ensures
            parsed == FnArgPrimitive::named(text@),
    {
        if str_eq(text, "string") {
            Some(FnArgPrimitive::String)
        } else if str_eq(text, "number") {
            Some(FnArgPrimitive::Number)
        } else if str_eq(text, "bool") {
            Some(FnArgPrimitive::Boolean)
        } else if str_eq(text, "tag") {
            Some(FnArgPrimitive::Tag)
        } else if str_eq(text, "sketch") {
            Some(FnArgPrimitive::Sketch)
        } else if str_eq(text, "sketch_surface") {
            Some(FnArgPrimitive::SketchSurface)
        } else if str_eq(text, "solid") {
            Some(FnArgPrimitive::Solid)
        } else {
            None
        }
    }

    /// The byte that stands for the type in a digest, as a model.
    pub open spec fn digest_id(self) -> Seq<u8> {
        match self {
            FnArgPrimitive::String => seq![1u8],
            FnArgPrimitive::Number => seq![2u8],
            FnArgPrimitive::Boolean => seq![3u8],
            FnArgPrimitive::Tag => seq![4u8],
            FnArgPrimitive::Sketch => seq![5u8],
            FnArgPrimitive::SketchSurface => seq![6u8],
            FnArgPrimitive::Solid => seq![7u8],
        }
    }

    /// The byte that stands for the type in a digest.
    pub fn digestable_id(&self) -> (id: [u8; 1])
        ensures
            id@ == self.digest_id(),
    {
        match self {
            FnArgPrimitive::String => [1],
            FnArgPrimitive::Number => [2],
            FnArgPrimitive::Boolean => [3],
            FnArgPrimitive::Tag => [4],
            FnArgPrimitive::Sketch => [5],
            FnArgPrimitive::SketchSurface => [6],
            FnArgPrimitive::Solid => [7],
        }
    }
}

} // verus!
