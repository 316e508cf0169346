//! The engine: evaluation settings, the preserve-structure switch and the
//! names of registered custom operators, which together decide how rules
//! compile.

use vstd::prelude::*;
use crate::compile::{CompiledLogic, compile_spec, is_unknown_operator_error};
use crate::config::{EvaluationConfig, default_config};
use crate::context::{DataContextStack, FrameView, frames_view};
use crate::eval::{NoOperator, Operator, RuleOperator, eval_node, eval_spec, no_ops, ops_view, result_view};
use crate::node::CompiledNode;
use crate::error::Error;
use crate::path::key_eq;
use crate::value::DataValue;

verus! {

broadcast use vstd::string::group_string_axioms;

/// A rule engine's settings.
pub struct DataLogic {
    config: EvaluationConfig,
    preserve_structure: bool,
    custom_operators: Vec<String>,
}

impl DataLogic {
    /// The evaluation settings.
    pub closed spec fn config_spec(&self) -> EvaluationConfig {
        self.config
    }

    /// Whether unknown keys are kept as output templates.
    pub closed spec fn preserves(&self) -> bool {
        self.preserve_structure
    }

    /// The names of the registered custom operators, without repeats.
    pub closed spec fn custom_names(&self) -> Set<Seq<char>> {
        Set::new(|n: Seq<char>| exists|i: int| 0 <= i < self.custom_operators@.len() && (#[trigger] self.custom_operators@[i])@ == n)
    }

    /// An engine with default settings, structure preservation off and no
    /// custom operators.
    pub fn new() -> (r: Self)
        ensures
            r.config_spec() == default_config(),
            !r.preserves(),
            r.custom_names() == Set::<Seq<char>>::empty(),
    {
        let r = DataLogic { config: EvaluationConfig::default(), preserve_structure: false, custom_operators: Vec::new() };
        assert(r.custom_names() =~= Set::<Seq<char>>::empty());
        r
    }

    /// An engine with default settings and structure preservation on.
    pub fn with_preserve_structure() -> (r: Self)
        ensures
            r.config_spec() == default_config(),
            r.preserves(),
            r.custom_names() == Set::<Seq<char>>::empty(),
    {
        let r = DataLogic { config: EvaluationConfig::default(), preserve_structure: true, custom_operators: Vec::new() };
        assert(r.custom_names() =~= Set::<Seq<char>>::empty());
        r
    }

    /// An engine with the given settings and structure preservation off.
    pub fn with_config(config: EvaluationConfig) -> (r: Self)
        ensures
            r.config_spec() == config,
            !r.preserves(),
            r.custom_names() == Set::<Seq<char>>::empty(),
    {
        let r = DataLogic { config, preserve_structure: false, custom_operators: Vec::new() };
        assert(r.custom_names() =~= Set::<Seq<char>>::empty());
        r
    }

    /// An engine with the given settings and preservation switch.
    pub fn with_config_and_structure(config: EvaluationConfig, preserve_structure: bool) -> (r: Self)
        ensures
            r.config_spec() == config,
            r.preserves() == preserve_structure,
            r.custom_names() == Set::<Seq<char>>::empty(),
    {
        let r = DataLogic { config, preserve_structure, custom_operators: Vec::new() };
        assert(r.custom_names() =~= Set::<Seq<char>>::empty());
        r
    }

    /// The evaluation settings.
    pub fn config(&self) -> (r: &EvaluationConfig)
        ensures
            *r == self.config_spec(),
    {
        &self.config
    }

    /// Whether structure preservation is on.
    pub fn preserve_structure(&self) -> (r: bool)
        ensures
            r == self.preserves(),
    {
        self.preserve_structure
    }

    /// True iff `name` is a registered custom operator.
    pub fn has_custom_operator(&self, name: &str) -> (r: bool)
        ensures
            r == self.custom_names().contains(name@),
    {
        let mut i: usize = 0;
        while i < self.custom_operators.len()
            invariant
                i <= self.custom_operators@.len(),
                forall|j: int| 0 <= j < i ==> (#[trigger] self.custom_operators@[j])@ != name@,
            decreases self.custom_operators@.len() - i,
        {
            if key_eq(self.custom_operators[i].as_str(), name) {
                assert(self.custom_names().contains(name@));
                return true;
            }
            i = i + 1;
        }
        false
    }

    /// Registers `name` as a custom operator, so that rules compile
    /// `{name: ...}` as a custom-operator invocation.
    pub fn register_operator(&mut self, name: String)
        ensures
            final(self).custom_names() == old(self).custom_names().insert(name@),
            final(self).config_spec() == old(self).config_spec(),
            final(self).preserves() == old(self).preserves(),
    {
        let ghost before = self.custom_names();
        if !self.has_custom_operator(name.as_str()) {
            let ghost old_ops = self.custom_operators@;
            let ghost n = name@;
            self.custom_operators.push(name);
            assert forall|t: Seq<char>| #[trigger] self.custom_names().contains(t) == before.insert(n).contains(t) by {
                if before.insert(n).contains(t) && t != n {
                    let i = choose|i: int| 0 <= i < old_ops.len() && (#[trigger] old_ops[i])@ == t;
                    assert(self.custom_operators@[i] == old_ops[i]);
                }
                if self.custom_names().contains(t) && t != n {
                    let i = choose|i: int| 0 <= i < self.custom_operators@.len() && (#[trigger] self.custom_operators@[i])@ == t;
                    assert(i < old_ops.len());
                    assert(old_ops[i] == self.custom_operators@[i]);
                }
                if t == n {
                    assert(self.custom_operators@[old_ops.len() as int]@ == n);
                }
            }
            assert(self.custom_names() =~= before.insert(n));
        } else {
            assert(before.insert(name@) =~= before);
        }
    }

    /// Compiles a rule with this engine: built-in operator nodes are
    /// optimised, literal arrays folded, and the engine's preservation switch
    /// and custom operators apply.
    pub fn compile(&self, logic: &DataValue) -> (r: Result<CompiledLogic, Error>)
        ensures
            match r {
                Ok(c) => compile_spec(logic@, Some(self), self.preserves()) == Some(c.root@),
                Err(e) => compile_spec(logic@, Some(self), self.preserves()) is None && is_unknown_operator_error(e),
            },
    {
        CompiledLogic::compile_with_static_eval(logic, self)
    }

    /// A custom operator defined by the rule `logic`, compiled with this
    /// engine and evaluated under its settings.
    pub fn rule_operator(&self, logic: &DataValue) -> (r: Result<RuleOperator, Error>)
        ensures
            match r {
                Ok(o) => compile_spec(logic@, Some(self), self.preserves()) == Some(o.body_spec())
                    && o.config_spec() == self.config_spec(),
                Err(e) => compile_spec(logic@, Some(self), self.preserves()) is None && is_unknown_operator_error(e),
            },
    {
        match self.compile(logic) {
            Ok(compiled) => Ok(RuleOperator::new(compiled.root, self.config)),
            Err(e) => Err(e),
        }
    }

    /// Evaluates `node` in the context `ctx` under this engine's settings,
    /// with no custom operator registered; the context is left as it was.
    pub fn evaluate_node<'a>(&self, node: &CompiledNode, ctx: &mut DataContextStack<'a>) -> (r: Result<
        DataValue,
        Error,
    >)
        ensures
            result_view(r) == eval_spec(
                node@,
                frames_view(old(ctx).frames()),
                old(ctx).root()@,
                self.config_spec(),
                no_ops(),
            ),
            final(ctx).frames() == old(ctx).frames(),
            final(ctx).root() == old(ctx).root(),
            final(ctx).error_path() == old(ctx).error_path(),
    {
        let none: Vec<(String, NoOperator)> = Vec::new();
        assert(ops_view(none@) =~= no_ops());
        eval_node(node, ctx, &self.config, &none)
    }

    /// Evaluates a compiled rule against `data`, with no custom operator
    /// registered.
    pub fn evaluate(&self, compiled: &CompiledLogic, data: &DataValue) -> (r: Result<DataValue, Error>)
        ensures
            result_view(r) == eval_spec(compiled.root@, Seq::<FrameView>::empty(), data@, self.config_spec(), no_ops()),
    {
        let none: Vec<(String, NoOperator)> = Vec::new();
        assert(ops_view(none@) =~= no_ops());
        self.evaluate_with_operators(compiled, data, &none)
    }

    /// Evaluates a compiled rule against `data`, with the custom operators
    /// `operators` registered under their names (the first of a name wins).
    pub fn evaluate_with_operators<O: Operator>(
        &self,
        compiled: &CompiledLogic,
        data: &DataValue,
        operators: &Vec<(String, O)>,
    ) -> (r: Result<DataValue, Error>)
        ensures
            result_view(r) == eval_spec(
                compiled.root@,
                Seq::<FrameView>::empty(),
                data@,
                self.config_spec(),
                ops_view(operators@),
            ),
    {
        let ctx = DataContextStack::new(data);
        assert(frames_view(ctx.frames()) =~= Seq::<FrameView>::empty());
        eval_node(&compiled.root, &ctx, &self.config, operators)
    }

    /// Compiles `logic` with this engine and evaluates it against `data`,
    /// with the custom operators `operators`.
    pub fn evaluate_value_with_operators<O: Operator>(
        &self,
        logic: &DataValue,
        data: &DataValue,
        operators: &Vec<(String, O)>,
    ) -> (r: Result<DataValue, Error>)
        ensures
            match compile_spec(logic@, Some(self), self.preserves()) {
                Some(n) => result_view(r) == eval_spec(
                    n,
                    Seq::<FrameView>::empty(),
                    data@,
                    self.config_spec(),
                    ops_view(operators@),
                ),
                None => r matches Err(e) && is_unknown_operator_error(e),
            },
    {
        match self.compile(logic) {
            Ok(compiled) => self.evaluate_with_operators(&compiled, data, operators),
            Err(e) => Err(e),
        }
    }

    /// Compiles `logic` with this engine and evaluates it against `data`,
    /// with no custom operator registered.
    pub fn evaluate_value(&self, logic: &DataValue, data: &DataValue) -> (r: Result<DataValue, Error>)
        ensures
            match compile_spec(logic@, Some(self), self.preserves()) {
                Some(n) => result_view(r) == eval_spec(n, Seq::<FrameView>::empty(), data@, self.config_spec(), no_ops()),
                None => r matches Err(e) && is_unknown_operator_error(e),
            },
    {
        let none: Vec<(String, NoOperator)> = Vec::new();
        assert(ops_view(none@) =~= no_ops());
        self.evaluate_value_with_operators(logic, data, &none)
    }
}

impl Default for DataLogic {
    fn default() -> (r: Self)
        ensures
            r.config_spec() == default_config(),
            !r.preserves(),
            r.custom_names() == Set::<Seq<char>>::empty(),
    {
        Self::new()
    }
}

impl DataLogic {
    /// A builder for an engine.
    pub fn builder() -> (r: DataLogicBuilder)
        ensures
            r.config_spec() == default_config(),
            !r.preserves(),
            r.operator_names() == Set::<Seq<char>>::empty(),
    {
        DataLogicBuilder::new()
    }
}

/// Fluent construction of a [`DataLogic`] engine.
pub struct DataLogicBuilder {
    config: EvaluationConfig,
    preserve_structure: bool,
    operators: DataLogic,
}

impl DataLogicBuilder {
    /// The settings the engine will get.
    pub closed spec fn config_spec(&self) -> EvaluationConfig {
        self.config
    }

    /// Whether the engine will keep unknown keys as output templates.
    pub closed spec fn preserves(&self) -> bool {
        self.preserve_structure
    }

    /// The custom operator names registered so far.
    pub closed spec fn operator_names(&self) -> Set<Seq<char>> {
        self.operators.custom_names()
    }

    /// A builder with default settings, preservation off and no custom
    /// operators.
    pub fn new() -> (r: Self)
        ensures
            r.config_spec() == default_config(),
            !r.preserves(),
            r.operator_names() == Set::<Seq<char>>::empty(),
    {
        DataLogicBuilder {
            config: EvaluationConfig::default(),
            preserve_structure: false,
            operators: DataLogic::new(),
        }
    }

    /// Sets the evaluation settings.
    pub fn config(self, config: EvaluationConfig) -> (r: Self)
        ensures
            r.config_spec() == config,
            r.preserves() == self.preserves(),
            r.operator_names() == self.operator_names(),
    {
        DataLogicBuilder { config, ..self }
    }

    /// Turns structure preservation on or off.
    pub fn preserve_structure(self, on: bool) -> (r: Self)
        ensures
            r.config_spec() == self.config_spec(),
            r.preserves() == on,
            r.operator_names() == self.operator_names(),
    {
        DataLogicBuilder { preserve_structure: on, ..self }
    }

    /// Registers `name` as a custom operator; a repeated name is kept once.
    pub fn add_operator(self, name: String) -> (r: Self)
        ensures
            r.config_spec() == self.config_spec(),
            r.preserves() == self.preserves(),
            r.operator_names() == self.operator_names().insert(name@),
    {
        let mut b = self;
        b.operators.register_operator(name);
        b
    }

    /// The engine with these settings and operators.
    pub fn build(self) -> (r: DataLogic)
        ensures
            r.config_spec() == self.config_spec(),
            r.preserves() == self.preserves(),
            r.custom_names() == self.operator_names(),
    {
        let DataLogicBuilder { config, preserve_structure, operators } = self;
        DataLogic { config, preserve_structure, custom_operators: operators.custom_operators }
    }
}

impl Default for DataLogicBuilder {
    fn default() -> (r: Self)
        ensures
            r.config_spec() == default_config(),
            !r.preserves(),
            r.operator_names() == Set::<Seq<char>>::empty(),
    {
        Self::new()
    }
}

} // verus!
