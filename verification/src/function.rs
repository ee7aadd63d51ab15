//! Functions: the order of their parameters, and how many arguments they take.

use crate::ast::{FunctionExpression, Parameter};
use crate::model::{FunctionExpressionView, ParameterView};
use crate::text::{first_index, lemma_first_index, lemma_first_index_is, str_eq};
use std::ops::RangeInclusive;
use vstd::prelude::*;
use vstd::string::StringExecFns;

verus! {

/// A required parameter that stands behind an optional one. Held is the
/// parameter.
#[derive(Debug, PartialEq)]
pub struct RequiredParamAfterOptionalParam(pub Box<Parameter>);

impl RequiredParamAfterOptionalParam {
    /// What to tell the author of the function.
    pub fn to_string(&self) -> (message: String)
        ensures
            message@
                == "KCL functions must declare any optional parameters after all the required parameters. But your required parameter "@
                + self.0@.identifier.name
                + " is _after_ an optional parameter. You must move it to before the optional parameters instead."@,
    {
        let mut message =
            "KCL functions must declare any optional parameters after all the required parameters. But your required parameter ".to_owned();
        message.append(self.0.identifier.name.as_str());
        message.append(
            " is _after_ an optional parameter. You must move it to before the optional parameters instead.",
        );
        message
    }
}

impl FunctionExpressionView {
    /// The index of the first optional parameter, or the number of parameters
    /// where all are required.
    pub open spec fn first_optional(self) -> int {
        first_index(self.params, |p: ParameterView| p.optional)
    }

    /// The index of the first required parameter behind an optional one, or
    /// the number of parameters where there is none.
    pub open spec fn misplaced(self) -> int {
        let k = self.first_optional();
        k + first_index(
            self.params.subrange(k, self.params.len() as int),
            |p: ParameterView| !p.optional,
        )
    }
}

impl FunctionExpression {
    /// The index of the first optional parameter.
    fn first_optional(&self) -> (index: usize)
        ensures
            index == self@.first_optional(),
            index <= self.params.len(),
    {
        let ghost p = |q: ParameterView| q.optional;
        let mut i: usize = 0;
        while i < self.params.len() && !self.params[i].optional
            invariant
                i <= self.params.len(),
                p == |q: ParameterView| q.optional,
                forall|j: int| 0 <= j < i ==> !p(#[trigger] self@.params[j]),
            decreases self.params.len() - i,
        {
            assert(!p(self@.params[i as int]));
            i += 1;
        }
        proof {
            if i < self.params.len() {
                assert(p(self@.params[i as int]));
            }
            lemma_first_index_is(self@.params, p, i as int);
        }
        i
    }

    /// The required and the optional parameters, in this order.
    ///
    /// All required parameters must stand before all optional ones. Where one
    /// does not, the first such parameter is returned as the error.
    pub fn required_and_optional_params(&self) -> (parts: Result<
        (&[Parameter], &[Parameter]),
        RequiredParamAfterOptionalParam,
    >)
        ensures
            match parts {
                Ok((required, optional)) => {
                    &&& self@.misplaced() == self.params.len()
                    &&& required@ == self.params@.subrange(0, self@.first_optional())
                    &&& optional@ == self.params@.subrange(
                        self@.first_optional(),
                        self.params.len() as int,
                    )
                },
                Err(e) => {
                    &&& 0 <= self@.misplaced() < self.params.len()
                    &&& e.0@ == self@.params[self@.misplaced()]
                },
            },
    {
        let k = self.first_optional();
        let ghost rest = self@.params.subrange(k as int, self.params.len() as int);
        let ghost required = |q: ParameterView| !q.optional;
        let mut j: usize = k;
        while j < self.params.len() && self.params[j].optional
            invariant
                k <= j <= self.params.len(),
                rest == self@.params.subrange(k as int, self.params.len() as int),
                required == |q: ParameterView| !q.optional,
                forall|i: int| 0 <= i < j - k ==> !required(#[trigger] rest[i]),
            decreases self.params.len() - j,
        {
            assert(rest[j - k] == self@.params[j as int]);
            j += 1;
        }
        proof {
            if j < self.params.len() {
                assert(rest[j - k] == self@.params[j as int]);
                assert(required(rest[j - k]));
            }
            lemma_first_index_is(rest, required, j - k);
        }
        if j < self.params.len() {
            return Err(RequiredParamAfterOptionalParam(Box::new(self.params[j].duplicate())));
        }
        Ok(self.params.as_slice().split_at(k))
    }

    /// The parameters before the first optional one.
    pub fn required_params(&self) -> (required: &[Parameter])
        ensures
            required@ == self.params@.subrange(0, self@.first_optional()),
    {
        let k = self.first_optional();
        let parts = self.params.as_slice().split_at(k);
        parts.0
    }

    /// The least and the greatest number of arguments that a call can give:
    /// the number of parameters before the first optional one, and the number
    /// of all parameters.
    pub fn number_of_args(&self) -> (counts: RangeInclusive<usize>)
        ensures
            counts@.start == self@.first_optional(),
            counts@.end == self.params.len(),
            !counts@.exhausted,
    {
        let required = self.required_params();
        proof {
            lemma_first_index(self@.params, |p: ParameterView| p.optional);
        }
        RangeInclusive::new(required.len(), self.params.len())
    }
}

/// What a name can call.
#[derive(Debug)]
pub enum Function {
    /// A function of the standard library that is built in. Held is its name.
    StdLib { name: String },
    /// A function of the standard library that is written in the language
    /// itself. Held is its name.
    StdLibKcl { name: String },
    /// A function that a program has defined.
    InMemory,
}

impl Function {
    /// Whether two functions can stand for each other: two of the standard
    /// library of the same sort and name, or two that programs have defined.
    pub open spec fn same(&self, other: &Self) -> bool {
        match (self, other) {
            (Function::StdLib { name: a }, Function::StdLib { name: b }) => a@ == b@,
            (Function::StdLibKcl { name: a }, Function::StdLibKcl { name: b }) => a@ == b@,
            (Function::InMemory, Function::InMemory) => true,
            _ => false,
        }
    }
}

impl PartialEq for Function {
    fn eq(&self, other: &Self) -> (same: bool) {
        match (self, other) {
            (Function::StdLib { name: a }, Function::StdLib { name: b }) => str_eq(
                a.as_str(),
                b.as_str(),
            ),
            (Function::StdLibKcl { name: a }, Function::StdLibKcl { name: b }) => str_eq(
                a.as_str(),
                b.as_str(),
            ),
            (Function::InMemory, Function::InMemory) => true,
            _ => false,
        }
    }
}

impl vstd::std_specs::cmp::PartialEqSpecImpl for Function {
    open spec fn obeys_eq_spec() -> bool {
        true
    }

    open spec fn eq_spec(&self, other: &Self) -> bool {
        self.same(other)
    }
}

impl Default for Function {
    fn default() -> (function: Self)
        ensures
            function is InMemory,
    {
        Function::InMemory
    }
}

} // verus!
