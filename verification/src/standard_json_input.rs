//! The compiler-invocation request: source files, language and settings,
//! with its convenience builders. Map-like members are kept as ordered
//! key/value sequences.

use vstd::prelude::*;

use crate::json::{jv, JsonV, JsonValue};

verus! {

/// The standard-JSON interface of the compiler: the same request shape,
/// addressed by source path.
#[derive(Debug, PartialEq, Eq)]
pub struct StandardJsonInput {
    pub language: Language,
    /// Source entries, in insertion order; a later entry for the same name
    /// takes precedence.
    pub sources: Vec<(String, Source)>,
    pub settings: Settings,
}

/// The source language of the input.
#[derive(Debug, PartialEq, Eq, Structural)]
pub enum Language {
    Solidity,
    Yul,
    SolidityAst,
    EvmAssembly,
}

/// One source file entry, with an optional hash to validate against.
#[derive(Debug, PartialEq, Eq)]
pub struct Source {
    pub keccak256: Option<String>,
    pub content: SourceContent,
}

/// Source text given inline, or as URLs to fetch it from.
#[derive(Debug, PartialEq, Eq)]
pub enum SourceContent {
    Content { content: String },
    Urls { urls: Vec<String> },
}

/// Compiler settings; every member is optional and omitted when unset.
#[derive(Debug, PartialEq, Eq)]
pub struct Settings {
    pub stop_after: Option<StopAfter>,
    pub remappings: Option<Vec<String>>,
    pub optimizer: Option<Optimizer>,
    pub evm_version: Option<EvmVersion>,
    pub via_ir: Option<bool>,
    pub debug: Option<DebugSettings>,
    pub metadata: Option<MetadataSettings>,
    pub libraries: Option<Vec<(String, Vec<(String, String)>)>>,
    pub output_selection: Option<Vec<(String, Vec<(String, Vec<String>)>)>>,
    pub model_checker: Option<ModelCheckerSettings>,
}

/// The stage after which compilation stops.
#[derive(Debug, PartialEq, Eq, Structural)]
pub enum StopAfter {
    Parsing,
}

/// Optimizer configuration.
#[derive(Debug, PartialEq, Eq)]
pub struct Optimizer {
    pub enabled: bool,
    pub runs: usize,
    pub details: Option<OptimizerDetails>,
}

/// Fine-grained optimizer switches.
#[derive(Debug, PartialEq, Eq)]
pub struct OptimizerDetails {
    pub peephole: Option<bool>,
    pub inliner: Option<bool>,
    pub jumpdest_remover: Option<bool>,
    pub order_literals: Option<bool>,
    pub deduplicate: Option<bool>,
    pub cse: Option<bool>,
    pub constant_optimizer: Option<bool>,
    pub yul: Option<bool>,
    pub yul_details: Option<YulDetails>,
}

/// Yul optimizer settings.
#[derive(Debug, PartialEq, Eq)]
pub struct YulDetails {
    pub stack_allocation: bool,
    pub optimizer_steps: Option<String>,
}

/// SMT-based model checker settings.
#[derive(Debug, PartialEq, Eq)]
pub struct ModelCheckerSettings {
    pub contracts: Option<Vec<(String, Vec<String>)>>,
    pub div_mod_no_slacks: Option<bool>,
    pub engine: Option<ModelCheckerEngine>,
    pub ext_calls: Option<ExtCalls>,
    pub invariants: Option<Vec<Invariant>>,
    pub show_proved_safe: Option<bool>,
    pub show_unproved: Option<bool>,
    pub show_unsupported: Option<bool>,
    pub solvers: Option<Vec<Solver>>,
    pub targets: Option<Vec<ModelCheckerTarget>>,
    pub timeout: Option<u64>,
}

/// The model checking engine to use.
#[derive(Debug, PartialEq, Eq, Structural)]
pub enum ModelCheckerEngine {
    All,
    Bmc,
    Chc,
    NoEngine,
}

/// How external calls are treated during model checking.
#[derive(Debug, PartialEq, Eq, Structural)]
pub enum ExtCalls {
    Trusted,
    Untrusted,
}

/// Which invariants the model checker reports.
#[derive(Debug, PartialEq, Eq, Structural)]
pub enum Invariant {
    Contract,
    Reentrancy,
}

/// The SMT solver to use.
#[derive(Debug, PartialEq, Eq, Structural)]
pub enum Solver {
    Cvc5,
    Smtlib2,
    Z3,
}

/// The verification targets of the model checker.
#[derive(Debug, PartialEq, Eq, Structural)]
pub enum ModelCheckerTarget {
    ConstantCondition,
    Underflow,
    Overflow,
    DivByZero,
    Balance,
    Assert,
    PopEmptyArray,
    OutOfBounds,
}

/// Debug output settings.
#[derive(Debug, PartialEq, Eq)]
pub struct DebugSettings {
    pub revert_strings: RevertStrings,
    pub debug_info: Vec<String>,
}

/// How revert reason strings are handled.
#[derive(Debug, PartialEq, Eq, Structural)]
pub enum RevertStrings {
    Default,
    Strip,
    Debug,
    VerboseDebug,
}

/// Metadata settings of the compiled bytecode.
#[derive(Debug, PartialEq, Eq)]
pub struct MetadataSettings {
    pub append_cbor: Option<bool>,
    pub use_literal_content: Option<bool>,
    pub bytecode_hash: Option<BytecodeHash>,
}

/// The hash embedded in bytecode metadata.
#[derive(Debug, PartialEq, Eq, Structural)]
pub enum BytecodeHash {
    Ipfs,
    Bzzr1,
    NoHash,
}

/// The target EVM version.
#[derive(Debug, PartialEq, Eq, Structural)]
pub enum EvmVersion {
    Homestead,
    TangerineWhistle,
    SpuriousDragon,
    Byzantium,
    Constantinople,
    Petersburg,
    Istanbul,
    Berlin,
    London,
    Paris,
    Shanghai,
    Cancun,
    Prague,
    Osaka,
}

/// Settings with every member unset.
pub open spec fn empty_settings() -> Settings {
    Settings {
        stop_after: None,
        remappings: None,
        optimizer: None,
        evm_version: None,
        via_ir: None,
        debug: None,
        metadata: None,
        libraries: None,
        output_selection: None,
        model_checker: None,
    }
}

impl StandardJsonInput {
    /// An empty Solidity input: no sources, default settings.
    pub fn new() -> (r: StandardJsonInput)
        ensures
            r.language == Language::Solidity,
            r.sources@.len() == 0,
            r.settings == empty_settings(),
    {
        StandardJsonInput {
            language: Language::Solidity,
            sources: Vec::new(),
            settings: Settings {
                stop_after: None,
                remappings: None,
                optimizer: None,
                evm_version: None,
                via_ir: None,
                debug: None,
                metadata: None,
                libraries: None,
                output_selection: None,
                model_checker: None,
            },
        }
    }

    /// Adds a source file with inline content and no hash; everything else
    /// is unchanged.
    pub fn add_source(self, name: String, content: String) -> (r: StandardJsonInput)
        ensures
            r.language == self.language,
            r.settings == self.settings,
            r.sources@ == self.sources@.push(
                (
                    name,
                    Source {
                        keccak256: None,
                        content: SourceContent::Content { content: content },
                    },
                ),
            ),
    {
        let mut s = self;
        s.sources.push(
            (name, Source { keccak256: None, content: SourceContent::Content { content } }),
        );
        s
    }

    /// Adds a source file given by URLs, with an optional expected hash;
    /// everything else is unchanged.
    pub fn add_source_urls(self, name: String, urls: Vec<String>, hash: Option<String>) -> (r:
        StandardJsonInput)
        ensures
            r.language == self.language,
            r.settings == self.settings,
            r.sources@ == self.sources@.push(
                (name, Source { keccak256: hash, content: SourceContent::Urls { urls: urls } }),
            ),
    {
        let mut s = self;
        s.sources.push((name, Source { keccak256: hash, content: SourceContent::Urls { urls } }));
        s
    }

    /// Sets the model checker settings; everything else is unchanged.
    pub fn model_checker(self, settings: ModelCheckerSettings) -> (r: StandardJsonInput)
        ensures
            r.language == self.language,
            r.sources@ == self.sources@,
            r.settings.model_checker == Some(settings),
            r.settings.stop_after == self.settings.stop_after,
            r.settings.remappings == self.settings.remappings,
            r.settings.optimizer == self.settings.optimizer,
            r.settings.evm_version == self.settings.evm_version,
            r.settings.via_ir == self.settings.via_ir,
            r.settings.debug == self.settings.debug,
            r.settings.metadata == self.settings.metadata,
            r.settings.libraries == self.settings.libraries,
            r.settings.output_selection == self.settings.output_selection,
    {
        let mut s = self;
        s.settings.model_checker = Some(settings);
        s
    }
}

/// The wire spelling of a Language value.
pub open spec fn spell_language(x: Language) -> Seq<char> {
    match x {
        Language::Solidity => "Solidity"@,
        Language::Yul => "Yul"@,
        Language::SolidityAst => "SolidityAST"@,
        Language::EvmAssembly => "EVMAssembly"@,
    }
}

/// Renders the wire spelling of a Language value.
pub fn encode_language(x: &Language) -> (r: String)
    ensures
        r@ == spell_language(*x),
{
    match x {
        Language::Solidity => String::from_str("Solidity"),
        Language::Yul => String::from_str("Yul"),
        Language::SolidityAst => String::from_str("SolidityAST"),
        Language::EvmAssembly => String::from_str("EVMAssembly"),
    }
}

/// The wire spelling of a StopAfter value.
pub open spec fn spell_stop_after(x: StopAfter) -> Seq<char> {
    match x {
        StopAfter::Parsing => "parsing"@,
    }
}

/// Renders the wire spelling of a StopAfter value.
pub fn encode_stop_after(x: &StopAfter) -> (r: String)
    ensures
        r@ == spell_stop_after(*x),
{
    match x {
        StopAfter::Parsing => String::from_str("parsing"),
    }
}

/// The wire spelling of a EvmVersion value.
pub open spec fn spell_evm_version(x: EvmVersion) -> Seq<char> {
    match x {
        EvmVersion::Homestead => "homestead"@,
        EvmVersion::TangerineWhistle => "tangerineWhistle"@,
        EvmVersion::SpuriousDragon => "spuriousDragon"@,
        EvmVersion::Byzantium => "byzantium"@,
        EvmVersion::Constantinople => "constantinople"@,
        EvmVersion::Petersburg => "petersburg"@,
        EvmVersion::Istanbul => "istanbul"@,
        EvmVersion::Berlin => "berlin"@,
        EvmVersion::London => "london"@,
        EvmVersion::Paris => "paris"@,
        EvmVersion::Shanghai => "shanghai"@,
        EvmVersion::Cancun => "cancun"@,
        EvmVersion::Prague => "prague"@,
        EvmVersion::Osaka => "osaka"@,
    }
}

/// Renders the wire spelling of a EvmVersion value.
pub fn encode_evm_version(x: &EvmVersion) -> (r: String)
    ensures
        r@ == spell_evm_version(*x),
{
    match x {
        EvmVersion::Homestead => String::from_str("homestead"),
        EvmVersion::TangerineWhistle => String::from_str("tangerineWhistle"),
        EvmVersion::SpuriousDragon => String::from_str("spuriousDragon"),
        EvmVersion::Byzantium => String::from_str("byzantium"),
        EvmVersion::Constantinople => String::from_str("constantinople"),
        EvmVersion::Petersburg => String::from_str("petersburg"),
        EvmVersion::Istanbul => String::from_str("istanbul"),
        EvmVersion::Berlin => String::from_str("berlin"),
        EvmVersion::London => String::from_str("london"),
        EvmVersion::Paris => String::from_str("paris"),
        EvmVersion::Shanghai => String::from_str("shanghai"),
        EvmVersion::Cancun => String::from_str("cancun"),
        EvmVersion::Prague => String::from_str("prague"),
        EvmVersion::Osaka => String::from_str("osaka"),
    }
}

/// The wire spelling of a ModelCheckerEngine value.
pub open spec fn spell_engine(x: ModelCheckerEngine) -> Seq<char> {
    match x {
        ModelCheckerEngine::All => "all"@,
        ModelCheckerEngine::Bmc => "bmc"@,
        ModelCheckerEngine::Chc => "chc"@,
        ModelCheckerEngine::NoEngine => "none"@,
    }
}

/// Renders the wire spelling of a ModelCheckerEngine value.
pub fn encode_engine(x: &ModelCheckerEngine) -> (r: String)
    ensures
        r@ == spell_engine(*x),
{
    match x {
        ModelCheckerEngine::All => String::from_str("all"),
        ModelCheckerEngine::Bmc => String::from_str("bmc"),
        ModelCheckerEngine::Chc => String::from_str("chc"),
        ModelCheckerEngine::NoEngine => String::from_str("none"),
    }
}

/// The wire spelling of a ExtCalls value.
pub open spec fn spell_ext_calls(x: ExtCalls) -> Seq<char> {
    match x {
        ExtCalls::Trusted => "trusted"@,
        ExtCalls::Untrusted => "untrusted"@,
    }
}

/// Renders the wire spelling of a ExtCalls value.
pub fn encode_ext_calls(x: &ExtCalls) -> (r: String)
    ensures
        r@ == spell_ext_calls(*x),
{
    match x {
        ExtCalls::Trusted => String::from_str("trusted"),
        ExtCalls::Untrusted => String::from_str("untrusted"),
    }
}

/// The wire spelling of a Invariant value.
pub open spec fn spell_invariant(x: Invariant) -> Seq<char> {
    match x {
        Invariant::Contract => "contract"@,
        Invariant::Reentrancy => "reentrancy"@,
    }
}

/// Renders the wire spelling of a Invariant value.
pub fn encode_invariant(x: &Invariant) -> (r: String)
    ensures
        r@ == spell_invariant(*x),
{
    match x {
        Invariant::Contract => String::from_str("contract"),
        Invariant::Reentrancy => String::from_str("reentrancy"),
    }
}

/// The wire spelling of a Solver value.
pub open spec fn spell_solver(x: Solver) -> Seq<char> {
    match x {
        Solver::Cvc5 => "cvc5"@,
        Solver::Smtlib2 => "smtlib2"@,
        Solver::Z3 => "z3"@,
    }
}

/// Renders the wire spelling of a Solver value.
pub fn encode_solver(x: &Solver) -> (r: String)
    ensures
        r@ == spell_solver(*x),
{
    match x {
        Solver::Cvc5 => String::from_str("cvc5"),
        Solver::Smtlib2 => String::from_str("smtlib2"),
        Solver::Z3 => String::from_str("z3"),
    }
}

/// The wire spelling of a ModelCheckerTarget value.
pub open spec fn spell_target(x: ModelCheckerTarget) -> Seq<char> {
    match x {
        ModelCheckerTarget::ConstantCondition => "constantCondition"@,
        ModelCheckerTarget::Underflow => "underflow"@,
        ModelCheckerTarget::Overflow => "overflow"@,
        ModelCheckerTarget::DivByZero => "divByZero"@,
        ModelCheckerTarget::Balance => "balance"@,
        ModelCheckerTarget::Assert => "assert"@,
        ModelCheckerTarget::PopEmptyArray => "popEmptyArray"@,
        ModelCheckerTarget::OutOfBounds => "outOfBounds"@,
    }
}

/// Renders the wire spelling of a ModelCheckerTarget value.
pub fn encode_target(x: &ModelCheckerTarget) -> (r: String)
    ensures
        r@ == spell_target(*x),
{
    match x {
        ModelCheckerTarget::ConstantCondition => String::from_str("constantCondition"),
        ModelCheckerTarget::Underflow => String::from_str("underflow"),
        ModelCheckerTarget::Overflow => String::from_str("overflow"),
        ModelCheckerTarget::DivByZero => String::from_str("divByZero"),
        ModelCheckerTarget::Balance => String::from_str("balance"),
        ModelCheckerTarget::Assert => String::from_str("assert"),
        ModelCheckerTarget::PopEmptyArray => String::from_str("popEmptyArray"),
        ModelCheckerTarget::OutOfBounds => String::from_str("outOfBounds"),
    }
}

/// The wire spelling of a RevertStrings value.
pub open spec fn spell_revert_strings(x: RevertStrings) -> Seq<char> {
    match x {
        RevertStrings::Default => "default"@,
        RevertStrings::Strip => "strip"@,
        RevertStrings::Debug => "debug"@,
        RevertStrings::VerboseDebug => "verboseDebug"@,
    }
}

/// Renders the wire spelling of a RevertStrings value.
pub fn encode_revert_strings(x: &RevertStrings) -> (r: String)
    ensures
        r@ == spell_revert_strings(*x),
{
    match x {
        RevertStrings::Default => String::from_str("default"),
        RevertStrings::Strip => String::from_str("strip"),
        RevertStrings::Debug => String::from_str("debug"),
        RevertStrings::VerboseDebug => String::from_str("verboseDebug"),
    }
}

/// The wire spelling of a BytecodeHash value.
pub open spec fn spell_bytecode_hash(x: BytecodeHash) -> Seq<char> {
    match x {
        BytecodeHash::Ipfs => "ipfs"@,
        BytecodeHash::Bzzr1 => "bzzr1"@,
        BytecodeHash::NoHash => "none"@,
    }
}

/// Renders the wire spelling of a BytecodeHash value.
pub fn encode_bytecode_hash(x: &BytecodeHash) -> (r: String)
    ensures
        r@ == spell_bytecode_hash(*x),
{
    match x {
        BytecodeHash::Ipfs => String::from_str("ipfs"),
        BytecodeHash::Bzzr1 => String::from_str("bzzr1"),
        BytecodeHash::NoHash => String::from_str("none"),
    }
}

/// The wire spellings of a sequence of Invariant values.
pub open spec fn spells_invariant(s: Seq<Invariant>) -> Seq<JsonV> {
    s.map_values(|x: Invariant| JsonV::Str(spell_invariant(x)))
}

/// Renders an array of Invariant spellings.
pub fn encode_invariant_list(v: &Vec<Invariant>) -> (r: JsonValue)
    ensures
        jv(r) == JsonV::Arr(spells_invariant(v@)),
{
    let mut out: Vec<JsonValue> = Vec::new();
    let n = v.len();
    let mut i: usize = 0;
    while i < n
        invariant
            i <= n,
            n == v@.len(),
            out@.len() == i,
            forall|j: int| 0 <= j < i ==> jv(#[trigger] out@[j]) == JsonV::Str(spell_invariant(v@[j])),
        decreases n - i,
    {
        out.push(JsonValue::Str(encode_invariant(&v[i])));
        i += 1;
    }
    proof {
        crate::json::lemma_jv_seq(out@);
        assert(crate::json::jv_seq(out@) =~= spells_invariant(v@));
    }
    JsonValue::Arr(out)
}

/// The wire spellings of a sequence of Solver values.
pub open spec fn spells_solver(s: Seq<Solver>) -> Seq<JsonV> {
    s.map_values(|x: Solver| JsonV::Str(spell_solver(x)))
}

/// Renders an array of Solver spellings.
pub fn encode_solver_list(v: &Vec<Solver>) -> (r: JsonValue)
    ensures
        jv(r) == JsonV::Arr(spells_solver(v@)),
{
    let mut out: Vec<JsonValue> = Vec::new();
    let n = v.len();
    let mut i: usize = 0;
    while i < n
        invariant
            i <= n,
            n == v@.len(),
            out@.len() == i,
            forall|j: int| 0 <= j < i ==> jv(#[trigger] out@[j]) == JsonV::Str(spell_solver(v@[j])),
        decreases n - i,
    {
        out.push(JsonValue::Str(encode_solver(&v[i])));
        i += 1;
    }
    proof {
        crate::json::lemma_jv_seq(out@);
        assert(crate::json::jv_seq(out@) =~= spells_solver(v@));
    }
    JsonValue::Arr(out)
}

/// The wire spellings of a sequence of ModelCheckerTarget values.
pub open spec fn spells_target(s: Seq<ModelCheckerTarget>) -> Seq<JsonV> {
    s.map_values(|x: ModelCheckerTarget| JsonV::Str(spell_target(x)))
}

/// Renders an array of ModelCheckerTarget spellings.
pub fn encode_target_list(v: &Vec<ModelCheckerTarget>) -> (r: JsonValue)
    ensures
        jv(r) == JsonV::Arr(spells_target(v@)),
{
    let mut out: Vec<JsonValue> = Vec::new();
    let n = v.len();
    let mut i: usize = 0;
    while i < n
        invariant
            i <= n,
            n == v@.len(),
            out@.len() == i,
            forall|j: int| 0 <= j < i ==> jv(#[trigger] out@[j]) == JsonV::Str(spell_target(v@[j])),
        decreases n - i,
    {
        out.push(JsonValue::Str(encode_target(&v[i])));
        i += 1;
    }
    proof {
        crate::json::lemma_jv_seq(out@);
        assert(crate::json::jv_seq(out@) =~= spells_target(v@));
    }
    JsonValue::Arr(out)
}

/// The wire form of a name-to-string-array mapping.
pub open spec fn map_strs_of(s: Seq<(String, Vec<String>)>) -> Seq<(Seq<char>, JsonV)> {
    s.map_values(|p: (String, Vec<String>)| (p.0@, JsonV::Arr(crate::ast::fields::strs_of(p.1@))))
}

/// Renders a name-to-string-array mapping.
pub fn encode_map_strs(v: &Vec<(String, Vec<String>)>) -> (r: JsonValue)
    ensures
        jv(r) == JsonV::Obj(map_strs_of(v@)),
{
    let mut out: Vec<(String, JsonValue)> = Vec::new();
    let n = v.len();
    let mut i: usize = 0;
    while i < n
        invariant
            i <= n,
            n == v@.len(),
            out@.len() == i,
            forall|j: int| 0 <= j < i ==> (#[trigger] out@[j]).0@ == v@[j].0@ && jv(out@[j].1)
                == JsonV::Arr(crate::ast::fields::strs_of(v@[j].1@)),
        decreases n - i,
    {
        let key = v[i].0.clone();
        let arr = crate::ast::enc_node::enc_vec_str(&v[i].1);
        out.push((key, arr));
        i += 1;
    }
    proof {
        crate::json::lemma_jv_pairs(out@);
        assert(crate::json::jv_pairs(out@) =~= map_strs_of(v@));
    }
    JsonValue::Obj(out)
}

/// The wire form of a name-to-string mapping.
pub open spec fn map_str_of(s: Seq<(String, String)>) -> Seq<(Seq<char>, JsonV)> {
    s.map_values(|p: (String, String)| (p.0@, JsonV::Str(p.1@)))
}

/// Renders a name-to-string mapping.
pub fn encode_map_str(v: &Vec<(String, String)>) -> (r: JsonValue)
    ensures
        jv(r) == JsonV::Obj(map_str_of(v@)),
{
    let mut out: Vec<(String, JsonValue)> = Vec::new();
    let n = v.len();
    let mut i: usize = 0;
    while i < n
        invariant
            i <= n,
            n == v@.len(),
            out@.len() == i,
            forall|j: int| 0 <= j < i ==> (#[trigger] out@[j]).0@ == v@[j].0@ && jv(out@[j].1)
                == JsonV::Str(v@[j].1@),
        decreases n - i,
    {
        out.push((v[i].0.clone(), JsonValue::Str(v[i].1.clone())));
        i += 1;
    }
    proof {
        crate::json::lemma_jv_pairs(out@);
        assert(crate::json::jv_pairs(out@) =~= map_str_of(v@));
    }
    JsonValue::Obj(out)
}

/// The wire form of the two-level library mapping.
pub open spec fn libraries_of(s: Seq<(String, Vec<(String, String)>)>) -> Seq<(Seq<char>, JsonV)> {
    s.map_values(|p: (String, Vec<(String, String)>)| (p.0@, JsonV::Obj(map_str_of(p.1@))))
}

/// Renders the two-level library mapping.
pub fn encode_libraries(v: &Vec<(String, Vec<(String, String)>)>) -> (r: JsonValue)
    ensures
        jv(r) == JsonV::Obj(libraries_of(v@)),
{
    let mut out: Vec<(String, JsonValue)> = Vec::new();
    let n = v.len();
    let mut i: usize = 0;
    while i < n
        invariant
            i <= n,
            n == v@.len(),
            out@.len() == i,
            forall|j: int| 0 <= j < i ==> (#[trigger] out@[j]).0@ == v@[j].0@ && jv(out@[j].1)
                == JsonV::Obj(map_str_of(v@[j].1@)),
        decreases n - i,
    {
        let key = v[i].0.clone();
        let inner = encode_map_str(&v[i].1);
        out.push((key, inner));
        i += 1;
    }
    proof {
        crate::json::lemma_jv_pairs(out@);
        assert(crate::json::jv_pairs(out@) =~= libraries_of(v@));
    }
    JsonValue::Obj(out)
}

/// The wire form of the two-level output selection mapping.
pub open spec fn selection_of(s: Seq<(String, Vec<(String, Vec<String>)>)>) -> Seq<
    (Seq<char>, JsonV),
> {
    s.map_values(
        |p: (String, Vec<(String, Vec<String>)>)| (p.0@, JsonV::Obj(map_strs_of(p.1@))),
    )
}

/// Renders the two-level output selection mapping.
pub fn encode_selection(v: &Vec<(String, Vec<(String, Vec<String>)>)>) -> (r: JsonValue)
    ensures
        jv(r) == JsonV::Obj(selection_of(v@)),
{
    let mut out: Vec<(String, JsonValue)> = Vec::new();
    let n = v.len();
    let mut i: usize = 0;
    while i < n
        invariant
            i <= n,
            n == v@.len(),
            out@.len() == i,
            forall|j: int| 0 <= j < i ==> (#[trigger] out@[j]).0@ == v@[j].0@ && jv(out@[j].1)
                == JsonV::Obj(map_strs_of(v@[j].1@)),
        decreases n - i,
    {
        let key = v[i].0.clone();
        let inner = encode_map_strs(&v[i].1);
        out.push((key, inner));
        i += 1;
    }
    proof {
        crate::json::lemma_jv_pairs(out@);
        assert(crate::json::jv_pairs(out@) =~= selection_of(v@));
    }
    JsonValue::Obj(out)
}

/// The flattened wire members of a source's content: inline text, or URLs.
pub open spec fn enc_source_content(c: SourceContent) -> Seq<(Seq<char>, JsonV)> {
    match c {
        SourceContent::Content { content } => seq![("content"@, JsonV::Str(content@))],
        SourceContent::Urls { urls } => seq![
            ("urls"@, JsonV::Arr(crate::ast::fields::strs_of(urls@))),
        ],
    }
}

/// The wire members of a source entry: the optional hash, then the flattened content members.
pub open spec fn enc_source(x: Source) -> Seq<(Seq<char>, JsonV)> {
    (match x.keccak256 {
        Some(v) => seq![("keccak256"@, JsonV::Str(v@))],
        None => Seq::empty(),
    }) + enc_source_content(x.content)
}

/// Renders a source entry: the optional hash, then the flattened content members; an unset member does not appear at all.
pub fn encode_source(x: &Source) -> (r: Vec<(String, JsonValue)>)
    ensures
        crate::json::jv_pairs(r@) == enc_source(*x),
{
    let mut out: Vec<(String, JsonValue)> = Vec::new();
    match &x.keccak256 {
        Some(v) => out.push(("keccak256".to_owned(), JsonValue::Str(v.clone()))),
        None => {},
    }
    proof {
        crate::json::lemma_jv_pairs(out@);
        assert(crate::json::jv_pairs(out@) =~= (match x.keccak256 {
        Some(v) => seq![("keccak256"@, JsonV::Str(v@))],
        None => Seq::empty(),
    }));
    }
    match &x.content {
        SourceContent::Content { content } => out.push((
            "content".to_owned(),
            JsonValue::Str(content.clone()),
        )),
        SourceContent::Urls { urls } => out.push((
            "urls".to_owned(),
            crate::ast::enc_node::enc_vec_str(urls),
        )),
    }
    proof {
        crate::json::lemma_jv_pairs(out@);
        assert(crate::json::jv_pairs(out@) =~= (match x.keccak256 {
        Some(v) => seq![("keccak256"@, JsonV::Str(v@))],
        None => Seq::empty(),
    }) + enc_source_content(x.content));
    }
    out
}

/// The `i`-th wire member group of the compiler settings: every member omitted when unset.
pub open spec fn enc_settings_seg(x: Settings, i: int) -> Seq<(Seq<char>, JsonV)> {
    if i == 0 {
        (match x.stop_after {
            Some(v) => seq![("stopAfter"@, JsonV::Str(spell_stop_after(v)))],
            None => Seq::empty(),
        })
    } else if i == 1 {
        (match x.remappings {
            Some(v) => seq![("remappings"@, JsonV::Arr(crate::ast::fields::strs_of(v@)))],
            None => Seq::empty(),
        })
    } else if i == 2 {
        (match x.optimizer {
            Some(v) => seq![("optimizer"@, JsonV::Obj(enc_optimizer(v)))],
            None => Seq::empty(),
        })
    } else if i == 3 {
        (match x.evm_version {
            Some(v) => seq![("evmVersion"@, JsonV::Str(spell_evm_version(v)))],
            None => Seq::empty(),
        })
    } else if i == 4 {
        (match x.via_ir {
            Some(v) => seq![("viaIr"@, JsonV::Bool(v))],
            None => Seq::empty(),
        })
    } else if i == 5 {
        (match x.debug {
            Some(v) => seq![("debug"@, JsonV::Obj(enc_debug_settings(v)))],
            None => Seq::empty(),
        })
    } else if i == 6 {
        (match x.metadata {
            Some(v) => seq![("metadata"@, JsonV::Obj(enc_metadata_settings(v)))],
            None => Seq::empty(),
        })
    } else if i == 7 {
        (match x.libraries {
            Some(v) => seq![("libraries"@, JsonV::Obj(libraries_of(v@)))],
            None => Seq::empty(),
        })
    } else if i == 8 {
        (match x.output_selection {
            Some(v) => seq![("outputSelection"@, JsonV::Obj(selection_of(v@)))],
            None => Seq::empty(),
        })
    } else if i == 9 {
        (match x.model_checker {
            Some(v) => seq![("modelChecker"@, JsonV::Obj(enc_model_checker_settings(v)))],
            None => Seq::empty(),
        })
    } else {
        Seq::empty()
    }
}

/// The first `i` wire member groups of the compiler settings: every member omitted when unset, in order.
pub open spec fn enc_settings_upto(x: Settings, i: int) -> Seq<(Seq<char>, JsonV)>
    decreases i,
{
    if i <= 0 {
        Seq::empty()
    } else {
        enc_settings_upto(x, i - 1) + enc_settings_seg(x, i - 1)
    }
}

/// The wire members of the compiler settings: every member omitted when unset.
pub open spec fn enc_settings(x: Settings) -> Seq<(Seq<char>, JsonV)> {
    enc_settings_upto(x, 10)
}

/// Appends one wire member group of the compiler settings: every member omitted when unset.
fn settings_step0(x: &Settings, acc: Vec<(String, JsonValue)>) -> (r: Vec<
    (String, JsonValue),
>)
    ensures
        crate::json::jv_pairs(r@) == crate::json::jv_pairs(acc@) + enc_settings_seg(*x, 0),
{
    let ghost av = acc@;
    let ghost g = crate::json::jv_pairs(acc@);
    let mut out = acc;
    match &x.stop_after {
        Some(v) => out.push(("stopAfter".to_owned(), JsonValue::Str(encode_stop_after(v)))),
        None => {},
    }
    proof {
        crate::json::lemma_jv_pairs(out@);
        crate::json::lemma_jv_pairs(av);
        assert(crate::json::jv_pairs(out@) =~= g + enc_settings_seg(*x, 0));
    }
    out
}

/// Appends one wire member group of the compiler settings: every member omitted when unset.
fn settings_step1(x: &Settings, acc: Vec<(String, JsonValue)>) -> (r: Vec<
    (String, JsonValue),
>)
    ensures
        crate::json::jv_pairs(r@) == crate::json::jv_pairs(acc@) + enc_settings_seg(*x, 1),
{
    let ghost av = acc@;
    let ghost g = crate::json::jv_pairs(acc@);
    let mut out = acc;
    match &x.remappings {
        Some(v) => out.push(("remappings".to_owned(), crate::ast::enc_node::enc_vec_str(v))),
        None => {},
    }
    proof {
        crate::json::lemma_jv_pairs(out@);
        crate::json::lemma_jv_pairs(av);
        assert(crate::json::jv_pairs(out@) =~= g + enc_settings_seg(*x, 1));
    }
    out
}

/// Appends one wire member group of the compiler settings: every member omitted when unset.
fn settings_step2(x: &Settings, acc: Vec<(String, JsonValue)>) -> (r: Vec<
    (String, JsonValue),
>)
    ensures
        crate::json::jv_pairs(r@) == crate::json::jv_pairs(acc@) + enc_settings_seg(*x, 2),
{
    let ghost av = acc@;
    let ghost g = crate::json::jv_pairs(acc@);
    let mut out = acc;
    match &x.optimizer {
        Some(v) => out.push(("optimizer".to_owned(), JsonValue::Obj(encode_optimizer(v)))),
        None => {},
    }
    proof {
        crate::json::lemma_jv_pairs(out@);
        crate::json::lemma_jv_pairs(av);
        assert(crate::json::jv_pairs(out@) =~= g + enc_settings_seg(*x, 2));
    }
    out
}

/// Appends one wire member group of the compiler settings: every member omitted when unset.
fn settings_step3(x: &Settings, acc: Vec<(String, JsonValue)>) -> (r: Vec<
    (String, JsonValue),
>)
    ensures
        crate::json::jv_pairs(r@) == crate::json::jv_pairs(acc@) + enc_settings_seg(*x, 3),
{
    let ghost av = acc@;
    let ghost g = crate::json::jv_pairs(acc@);
    let mut out = acc;
    match &x.evm_version {
        Some(v) => out.push(("evmVersion".to_owned(), JsonValue::Str(encode_evm_version(v)))),
        None => {},
    }
    proof {
        crate::json::lemma_jv_pairs(out@);
        crate::json::lemma_jv_pairs(av);
        assert(crate::json::jv_pairs(out@) =~= g + enc_settings_seg(*x, 3));
    }
    out
}

/// Appends one wire member group of the compiler settings: every member omitted when unset.
fn settings_step4(x: &Settings, acc: Vec<(String, JsonValue)>) -> (r: Vec<
    (String, JsonValue),
>)
    ensures
        crate::json::jv_pairs(r@) == crate::json::jv_pairs(acc@) + enc_settings_seg(*x, 4),
{
    let ghost av = acc@;
    let ghost g = crate::json::jv_pairs(acc@);
    let mut out = acc;
    match &x.via_ir {
        Some(v) => out.push(("viaIr".to_owned(), JsonValue::Bool(*v))),
        None => {},
    }
    proof {
        crate::json::lemma_jv_pairs(out@);
        crate::json::lemma_jv_pairs(av);
        assert(crate::json::jv_pairs(out@) =~= g + enc_settings_seg(*x, 4));
    }
    out
}

/// Appends one wire member group of the compiler settings: every member omitted when unset.
fn settings_step5(x: &Settings, acc: Vec<(String, JsonValue)>) -> (r: Vec<
    (String, JsonValue),
>)
    ensures
        crate::json::jv_pairs(r@) == crate::json::jv_pairs(acc@) + enc_settings_seg(*x, 5),
{
    let ghost av = acc@;
    let ghost g = crate::json::jv_pairs(acc@);
    let mut out = acc;
    match &x.debug {
        Some(v) => out.push(("debug".to_owned(), JsonValue::Obj(encode_debug_settings(v)))),
        None => {},
    }
    proof {
        crate::json::lemma_jv_pairs(out@);
        crate::json::lemma_jv_pairs(av);
        assert(crate::json::jv_pairs(out@) =~= g + enc_settings_seg(*x, 5));
    }
    out
}

/// Appends one wire member group of the compiler settings: every member omitted when unset.
fn settings_step6(x: &Settings, acc: Vec<(String, JsonValue)>) -> (r: Vec<
    (String, JsonValue),
>)
    ensures
        crate::json::jv_pairs(r@) == crate::json::jv_pairs(acc@) + enc_settings_seg(*x, 6),
{
    let ghost av = acc@;
    let ghost g = crate::json::jv_pairs(acc@);
    let mut out = acc;
    match &x.metadata {
        Some(v) => out.push(("metadata".to_owned(), JsonValue::Obj(encode_metadata_settings(v)))),
        None => {},
    }
    proof {
        crate::json::lemma_jv_pairs(out@);
        crate::json::lemma_jv_pairs(av);
        assert(crate::json::jv_pairs(out@) =~= g + enc_settings_seg(*x, 6));
    }
    out
}

/// Appends one wire member group of the compiler settings: every member omitted when unset.
fn settings_step7(x: &Settings, acc: Vec<(String, JsonValue)>) -> (r: Vec<
    (String, JsonValue),
>)
    ensures
        crate::json::jv_pairs(r@) == crate::json::jv_pairs(acc@) + enc_settings_seg(*x, 7),
{
    let ghost av = acc@;
    let ghost g = crate::json::jv_pairs(acc@);
    let mut out = acc;
    match &x.libraries {
        Some(v) => out.push(("libraries".to_owned(), encode_libraries(v))),
        None => {},
    }
    proof {
        crate::json::lemma_jv_pairs(out@);
        crate::json::lemma_jv_pairs(av);
        assert(crate::json::jv_pairs(out@) =~= g + enc_settings_seg(*x, 7));
    }
    out
}

/// Appends one wire member group of the compiler settings: every member omitted when unset.
fn settings_step8(x: &Settings, acc: Vec<(String, JsonValue)>) -> (r: Vec<
    (String, JsonValue),
>)
    ensures
        crate::json::jv_pairs(r@) == crate::json::jv_pairs(acc@) + enc_settings_seg(*x, 8),
{
    let ghost av = acc@;
    let ghost g = crate::json::jv_pairs(acc@);
    let mut out = acc;
    match &x.output_selection {
        Some(v) => out.push(("outputSelection".to_owned(), encode_selection(v))),
        None => {},
    }
    proof {
        crate::json::lemma_jv_pairs(out@);
        crate::json::lemma_jv_pairs(av);
        assert(crate::json::jv_pairs(out@) =~= g + enc_settings_seg(*x, 8));
    }
    out
}

/// Appends one wire member group of the compiler settings: every member omitted when unset.
fn settings_step9(x: &Settings, acc: Vec<(String, JsonValue)>) -> (r: Vec<
    (String, JsonValue),
>)
    ensures
        crate::json::jv_pairs(r@) == crate::json::jv_pairs(acc@) + enc_settings_seg(*x, 9),
{
    let ghost av = acc@;
    let ghost g = crate::json::jv_pairs(acc@);
    let mut out = acc;
    match &x.model_checker {
        Some(v) => out.push(("modelChecker".to_owned(), JsonValue::Obj(encode_model_checker_settings(v)))),
        None => {},
    }
    proof {
        crate::json::lemma_jv_pairs(out@);
        crate::json::lemma_jv_pairs(av);
        assert(crate::json::jv_pairs(out@) =~= g + enc_settings_seg(*x, 9));
    }
    out
}

/// Renders the compiler settings: every member omitted when unset; an unset member does not appear at all.
pub fn encode_settings(x: &Settings) -> (r: Vec<(String, JsonValue)>)
    ensures
        crate::json::jv_pairs(r@) == enc_settings(*x),
{
    let mut out: Vec<(String, JsonValue)> = Vec::new();
    proof {
        crate::json::lemma_jv_pairs(out@);
        assert(crate::json::jv_pairs(out@) =~= enc_settings_upto(*x, 0));
    }
    out = settings_step0(x, out);
    proof {
        assert(crate::json::jv_pairs(out@) =~= enc_settings_upto(*x, 1));
    }
    out = settings_step1(x, out);
    proof {
        assert(crate::json::jv_pairs(out@) =~= enc_settings_upto(*x, 2));
    }
    out = settings_step2(x, out);
    proof {
        assert(crate::json::jv_pairs(out@) =~= enc_settings_upto(*x, 3));
    }
    out = settings_step3(x, out);
    proof {
        assert(crate::json::jv_pairs(out@) =~= enc_settings_upto(*x, 4));
    }
    out = settings_step4(x, out);
    proof {
        assert(crate::json::jv_pairs(out@) =~= enc_settings_upto(*x, 5));
    }
    out = settings_step5(x, out);
    proof {
        assert(crate::json::jv_pairs(out@) =~= enc_settings_upto(*x, 6));
    }
    out = settings_step6(x, out);
    proof {
        assert(crate::json::jv_pairs(out@) =~= enc_settings_upto(*x, 7));
    }
    out = settings_step7(x, out);
    proof {
        assert(crate::json::jv_pairs(out@) =~= enc_settings_upto(*x, 8));
    }
    out = settings_step8(x, out);
    proof {
        assert(crate::json::jv_pairs(out@) =~= enc_settings_upto(*x, 9));
    }
    out = settings_step9(x, out);
    proof {
        assert(crate::json::jv_pairs(out@) =~= enc_settings_upto(*x, 10));
    }
    out
}

/// The wire members of the optimizer settings.
pub open spec fn enc_optimizer(x: Optimizer) -> Seq<(Seq<char>, JsonV)> {
    seq![("enabled"@, JsonV::Bool(x.enabled))] + seq![("runs"@, JsonV::Int((x.runs as i64) as int))] + (match x.details {
        Some(v) => seq![("details"@, JsonV::Obj(enc_optimizer_details(v)))],
        None => Seq::empty(),
    })
}

/// Renders the optimizer settings; an unset member does not appear at all.
pub fn encode_optimizer(x: &Optimizer) -> (r: Vec<(String, JsonValue)>)
    ensures
        crate::json::jv_pairs(r@) == enc_optimizer(*x),
{
    let mut out: Vec<(String, JsonValue)> = Vec::new();
    out.push(("enabled".to_owned(), JsonValue::Bool(x.enabled)));
    proof {
        crate::json::lemma_jv_pairs(out@);
        assert(crate::json::jv_pairs(out@) =~= seq![("enabled"@, JsonV::Bool(x.enabled))]);
    }
    out.push(("runs".to_owned(), JsonValue::Int(#[verifier::truncate] (x.runs as i64))));
    proof {
        crate::json::lemma_jv_pairs(out@);
        assert(crate::json::jv_pairs(out@) =~= seq![("enabled"@, JsonV::Bool(x.enabled))] + seq![("runs"@, JsonV::Int((x.runs as i64) as int))]);
    }
    match &x.details {
        Some(v) => out.push(("details".to_owned(), JsonValue::Obj(encode_optimizer_details(v)))),
        None => {},
    }
    proof {
        crate::json::lemma_jv_pairs(out@);
        assert(crate::json::jv_pairs(out@) =~= seq![("enabled"@, JsonV::Bool(x.enabled))] + seq![("runs"@, JsonV::Int((x.runs as i64) as int))] + (match x.details {
        Some(v) => seq![("details"@, JsonV::Obj(enc_optimizer_details(v)))],
        None => Seq::empty(),
    }));
    }
    out
}

/// The `i`-th wire member group of the fine-grained optimizer switches.
pub open spec fn enc_optimizer_details_seg(x: OptimizerDetails, i: int) -> Seq<(Seq<char>, JsonV)> {
    if i == 0 {
        (match x.peephole {
            Some(v) => seq![("peephole"@, JsonV::Bool(v))],
            None => Seq::empty(),
        })
    } else if i == 1 {
        (match x.inliner {
            Some(v) => seq![("inliner"@, JsonV::Bool(v))],
            None => Seq::empty(),
        })
    } else if i == 2 {
        (match x.jumpdest_remover {
            Some(v) => seq![("jumpdestRemover"@, JsonV::Bool(v))],
            None => Seq::empty(),
        })
    } else if i == 3 {
        (match x.order_literals {
            Some(v) => seq![("orderLiterals"@, JsonV::Bool(v))],
            None => Seq::empty(),
        })
    } else if i == 4 {
        (match x.deduplicate {
            Some(v) => seq![("deduplicate"@, JsonV::Bool(v))],
            None => Seq::empty(),
        })
    } else if i == 5 {
        (match x.cse {
            Some(v) => seq![("cse"@, JsonV::Bool(v))],
            None => Seq::empty(),
        })
    } else if i == 6 {
        (match x.constant_optimizer {
            Some(v) => seq![("constantOptimizer"@, JsonV::Bool(v))],
            None => Seq::empty(),
        })
    } else if i == 7 {
        (match x.yul {
            Some(v) => seq![("yul"@, JsonV::Bool(v))],
            None => Seq::empty(),
        })
    } else if i == 8 {
        (match x.yul_details {
            Some(v) => seq![("yulDetails"@, JsonV::Obj(enc_yul_details(v)))],
            None => Seq::empty(),
        })
    } else {
        Seq::empty()
    }
}

/// The first `i` wire member groups of the fine-grained optimizer switches, in order.
pub open spec fn enc_optimizer_details_upto(x: OptimizerDetails, i: int) -> Seq<(Seq<char>, JsonV)>
    decreases i,
{
    if i <= 0 {
        Seq::empty()
    } else {
        enc_optimizer_details_upto(x, i - 1) + enc_optimizer_details_seg(x, i - 1)
    }
}

/// The wire members of the fine-grained optimizer switches.
pub open spec fn enc_optimizer_details(x: OptimizerDetails) -> Seq<(Seq<char>, JsonV)> {
    enc_optimizer_details_upto(x, 9)
}

/// Appends one wire member group of the fine-grained optimizer switches.
fn optimizer_details_step0(x: &OptimizerDetails, acc: Vec<(String, JsonValue)>) -> (r: Vec<
    (String, JsonValue),
>)
    ensures
        crate::json::jv_pairs(r@) == crate::json::jv_pairs(acc@) + enc_optimizer_details_seg(*x, 0),
{
    let ghost av = acc@;
    let ghost g = crate::json::jv_pairs(acc@);
    let mut out = acc;
    match &x.peephole {
        Some(v) => out.push(("peephole".to_owned(), JsonValue::Bool(*v))),
        None => {},
    }
    proof {
        crate::json::lemma_jv_pairs(out@);
        crate::json::lemma_jv_pairs(av);
        assert(crate::json::jv_pairs(out@) =~= g + enc_optimizer_details_seg(*x, 0));
    }
    out
}

/// Appends one wire member group of the fine-grained optimizer switches.
fn optimizer_details_step1(x: &OptimizerDetails, acc: Vec<(String, JsonValue)>) -> (r: Vec<
    (String, JsonValue),
>)
    ensures
        crate::json::jv_pairs(r@) == crate::json::jv_pairs(acc@) + enc_optimizer_details_seg(*x, 1),
{
    let ghost av = acc@;
    let ghost g = crate::json::jv_pairs(acc@);
    let mut out = acc;
    match &x.inliner {
        Some(v) => out.push(("inliner".to_owned(), JsonValue::Bool(*v))),
        None => {},
    }
    proof {
        crate::json::lemma_jv_pairs(out@);
        crate::json::lemma_jv_pairs(av);
        assert(crate::json::jv_pairs(out@) =~= g + enc_optimizer_details_seg(*x, 1));
    }
    out
}

/// Appends one wire member group of the fine-grained optimizer switches.
fn optimizer_details_step2(x: &OptimizerDetails, acc: Vec<(String, JsonValue)>) -> (r: Vec<
    (String, JsonValue),
>)
    ensures
        crate::json::jv_pairs(r@) == crate::json::jv_pairs(acc@) + enc_optimizer_details_seg(*x, 2),
{
    let ghost av = acc@;
    let ghost g = crate::json::jv_pairs(acc@);
    let mut out = acc;
    match &x.jumpdest_remover {
        Some(v) => out.push(("jumpdestRemover".to_owned(), JsonValue::Bool(*v))),
        None => {},
    }
    proof {
        crate::json::lemma_jv_pairs(out@);
        crate::json::lemma_jv_pairs(av);
        assert(crate::json::jv_pairs(out@) =~= g + enc_optimizer_details_seg(*x, 2));
    }
    out
}

/// Appends one wire member group of the fine-grained optimizer switches.
fn optimizer_details_step3(x: &OptimizerDetails, acc: Vec<(String, JsonValue)>) -> (r: Vec<
    (String, JsonValue),
>)
    ensures
        crate::json::jv_pairs(r@) == crate::json::jv_pairs(acc@) + enc_optimizer_details_seg(*x, 3),
{
    let ghost av = acc@;
    let ghost g = crate::json::jv_pairs(acc@);
    let mut out = acc;
    match &x.order_literals {
        Some(v) => out.push(("orderLiterals".to_owned(), JsonValue::Bool(*v))),
        None => {},
    }
    proof {
        crate::json::lemma_jv_pairs(out@);
        crate::json::lemma_jv_pairs(av);
        assert(crate::json::jv_pairs(out@) =~= g + enc_optimizer_details_seg(*x, 3));
    }
    out
}

/// Appends one wire member group of the fine-grained optimizer switches.
fn optimizer_details_step4(x: &OptimizerDetails, acc: Vec<(String, JsonValue)>) -> (r: Vec<
    (String, JsonValue),
>)
    ensures
        crate::json::jv_pairs(r@) == crate::json::jv_pairs(acc@) + enc_optimizer_details_seg(*x, 4),
{
    let ghost av = acc@;
    let ghost g = crate::json::jv_pairs(acc@);
    let mut out = acc;
    match &x.deduplicate {
        Some(v) => out.push(("deduplicate".to_owned(), JsonValue::Bool(*v))),
        None => {},
    }
    proof {
        crate::json::lemma_jv_pairs(out@);
        crate::json::lemma_jv_pairs(av);
        assert(crate::json::jv_pairs(out@) =~= g + enc_optimizer_details_seg(*x, 4));
    }
    out
}

/// Appends one wire member group of the fine-grained optimizer switches.
fn optimizer_details_step5(x: &OptimizerDetails, acc: Vec<(String, JsonValue)>) -> (r: Vec<
    (String, JsonValue),
>)
    ensures
        crate::json::jv_pairs(r@) == crate::json::jv_pairs(acc@) + enc_optimizer_details_seg(*x, 5),
{
    let ghost av = acc@;
    let ghost g = crate::json::jv_pairs(acc@);
    let mut out = acc;
    match &x.cse {
        Some(v) => out.push(("cse".to_owned(), JsonValue::Bool(*v))),
        None => {},
    }
    proof {
        crate::json::lemma_jv_pairs(out@);
        crate::json::lemma_jv_pairs(av);
        assert(crate::json::jv_pairs(out@) =~= g + enc_optimizer_details_seg(*x, 5));
    }
    out
}

/// Appends one wire member group of the fine-grained optimizer switches.
fn optimizer_details_step6(x: &OptimizerDetails, acc: Vec<(String, JsonValue)>) -> (r: Vec<
    (String, JsonValue),
>)
    ensures
        crate::json::jv_pairs(r@) == crate::json::jv_pairs(acc@) + enc_optimizer_details_seg(*x, 6),
{
    let ghost av = acc@;
    let ghost g = crate::json::jv_pairs(acc@);
    let mut out = acc;
    match &x.constant_optimizer {
        Some(v) => out.push(("constantOptimizer".to_owned(), JsonValue::Bool(*v))),
        None => {},
    }
    proof {
        crate::json::lemma_jv_pairs(out@);
        crate::json::lemma_jv_pairs(av);
        assert(crate::json::jv_pairs(out@) =~= g + enc_optimizer_details_seg(*x, 6));
    }
    out
}

/// Appends one wire member group of the fine-grained optimizer switches.
fn optimizer_details_step7(x: &OptimizerDetails, acc: Vec<(String, JsonValue)>) -> (r: Vec<
    (String, JsonValue),
>)
    ensures
        crate::json::jv_pairs(r@) == crate::json::jv_pairs(acc@) + enc_optimizer_details_seg(*x, 7),
{
    let ghost av = acc@;
    let ghost g = crate::json::jv_pairs(acc@);
    let mut out = acc;
    match &x.yul {
        Some(v) => out.push(("yul".to_owned(), JsonValue::Bool(*v))),
        None => {},
    }
    proof {
        crate::json::lemma_jv_pairs(out@);
        crate::json::lemma_jv_pairs(av);
        assert(crate::json::jv_pairs(out@) =~= g + enc_optimizer_details_seg(*x, 7));
    }
    out
}

/// Appends one wire member group of the fine-grained optimizer switches.
fn optimizer_details_step8(x: &OptimizerDetails, acc: Vec<(String, JsonValue)>) -> (r: Vec<
    (String, JsonValue),
>)
    ensures
        crate::json::jv_pairs(r@) == crate::json::jv_pairs(acc@) + enc_optimizer_details_seg(*x, 8),
{
    let ghost av = acc@;
    let ghost g = crate::json::jv_pairs(acc@);
    let mut out = acc;
    match &x.yul_details {
        Some(v) => out.push(("yulDetails".to_owned(), JsonValue::Obj(encode_yul_details(v)))),
        None => {},
    }
    proof {
        crate::json::lemma_jv_pairs(out@);
        crate::json::lemma_jv_pairs(av);
        assert(crate::json::jv_pairs(out@) =~= g + enc_optimizer_details_seg(*x, 8));
    }
    out
}

/// Renders the fine-grained optimizer switches; an unset member does not appear at all.
pub fn encode_optimizer_details(x: &OptimizerDetails) -> (r: Vec<(String, JsonValue)>)
    ensures
        crate::json::jv_pairs(r@) == enc_optimizer_details(*x),
{
    let mut out: Vec<(String, JsonValue)> = Vec::new();
    proof {
        crate::json::lemma_jv_pairs(out@);
        assert(crate::json::jv_pairs(out@) =~= enc_optimizer_details_upto(*x, 0));
    }
    out = optimizer_details_step0(x, out);
    proof {
        assert(crate::json::jv_pairs(out@) =~= enc_optimizer_details_upto(*x, 1));
    }
    out = optimizer_details_step1(x, out);
    proof {
        assert(crate::json::jv_pairs(out@) =~= enc_optimizer_details_upto(*x, 2));
    }
    out = optimizer_details_step2(x, out);
    proof {
        assert(crate::json::jv_pairs(out@) =~= enc_optimizer_details_upto(*x, 3));
    }
    out = optimizer_details_step3(x, out);
    proof {
        assert(crate::json::jv_pairs(out@) =~= enc_optimizer_details_upto(*x, 4));
    }
    out = optimizer_details_step4(x, out);
    proof {
        assert(crate::json::jv_pairs(out@) =~= enc_optimizer_details_upto(*x, 5));
    }
    out = optimizer_details_step5(x, out);
    proof {
        assert(crate::json::jv_pairs(out@) =~= enc_optimizer_details_upto(*x, 6));
    }
    out = optimizer_details_step6(x, out);
    proof {
        assert(crate::json::jv_pairs(out@) =~= enc_optimizer_details_upto(*x, 7));
    }
    out = optimizer_details_step7(x, out);
    proof {
        assert(crate::json::jv_pairs(out@) =~= enc_optimizer_details_upto(*x, 8));
    }
    out = optimizer_details_step8(x, out);
    proof {
        assert(crate::json::jv_pairs(out@) =~= enc_optimizer_details_upto(*x, 9));
    }
    out
}

/// The wire members of the Yul optimizer settings.
pub open spec fn enc_yul_details(x: YulDetails) -> Seq<(Seq<char>, JsonV)> {
    seq![("stackAllocation"@, JsonV::Bool(x.stack_allocation))] + (match x.optimizer_steps {
        Some(v) => seq![("optimizerSteps"@, JsonV::Str(v@))],
        None => Seq::empty(),
    })
}

/// Renders the Yul optimizer settings; an unset member does not appear at all.
pub fn encode_yul_details(x: &YulDetails) -> (r: Vec<(String, JsonValue)>)
    ensures
        crate::json::jv_pairs(r@) == enc_yul_details(*x),
{
    let mut out: Vec<(String, JsonValue)> = Vec::new();
    out.push(("stackAllocation".to_owned(), JsonValue::Bool(x.stack_allocation)));
    proof {
        crate::json::lemma_jv_pairs(out@);
        assert(crate::json::jv_pairs(out@) =~= seq![("stackAllocation"@, JsonV::Bool(x.stack_allocation))]);
    }
    match &x.optimizer_steps {
        Some(v) => out.push(("optimizerSteps".to_owned(), JsonValue::Str(v.clone()))),
        None => {},
    }
    proof {
        crate::json::lemma_jv_pairs(out@);
        assert(crate::json::jv_pairs(out@) =~= seq![("stackAllocation"@, JsonV::Bool(x.stack_allocation))] + (match x.optimizer_steps {
        Some(v) => seq![("optimizerSteps"@, JsonV::Str(v@))],
        None => Seq::empty(),
    }));
    }
    out
}

/// The `i`-th wire member group of the model checker settings.
pub open spec fn enc_model_checker_settings_seg(x: ModelCheckerSettings, i: int) -> Seq<(Seq<char>, JsonV)> {
    if i == 0 {
        (match x.contracts {
            Some(v) => seq![("contracts"@, JsonV::Obj(map_strs_of(v@)))],
            None => Seq::empty(),
        })
    } else if i == 1 {
        (match x.div_mod_no_slacks {
            Some(v) => seq![("divModNoSlacks"@, JsonV::Bool(v))],
            None => Seq::empty(),
        })
    } else if i == 2 {
        (match x.engine {
            Some(v) => seq![("engine"@, JsonV::Str(spell_engine(v)))],
            None => Seq::empty(),
        })
    } else if i == 3 {
        (match x.ext_calls {
            Some(v) => seq![("extCalls"@, JsonV::Str(spell_ext_calls(v)))],
            None => Seq::empty(),
        })
    } else if i == 4 {
        (match x.invariants {
            Some(v) => seq![("invariants"@, JsonV::Arr(spells_invariant(v@)))],
            None => Seq::empty(),
        })
    } else if i == 5 {
        (match x.show_proved_safe {
            Some(v) => seq![("showProvedSafe"@, JsonV::Bool(v))],
            None => Seq::empty(),
        })
    } else if i == 6 {
        (match x.show_unproved {
            Some(v) => seq![("showUnproved"@, JsonV::Bool(v))],
            None => Seq::empty(),
        })
    } else if i == 7 {
        (match x.show_unsupported {
            Some(v) => seq![("showUnsupported"@, JsonV::Bool(v))],
            None => Seq::empty(),
        })
    } else if i == 8 {
        (match x.solvers {
            Some(v) => seq![("solvers"@, JsonV::Arr(spells_solver(v@)))],
            None => Seq::empty(),
        })
    } else if i == 9 {
        (match x.targets {
            Some(v) => seq![("targets"@, JsonV::Arr(spells_target(v@)))],
            None => Seq::empty(),
        })
    } else if i == 10 {
        (match x.timeout {
            Some(v) => seq![("timeout"@, JsonV::Int((v as i64) as int))],
            None => Seq::empty(),
        })
    } else {
        Seq::empty()
    }
}

/// The first `i` wire member groups of the model checker settings, in order.
pub open spec fn enc_model_checker_settings_upto(x: ModelCheckerSettings, i: int) -> Seq<(Seq<char>, JsonV)>
    decreases i,
{
    if i <= 0 {
        Seq::empty()
    } else {
        enc_model_checker_settings_upto(x, i - 1) + enc_model_checker_settings_seg(x, i - 1)
    }
}

/// The wire members of the model checker settings.
pub open spec fn enc_model_checker_settings(x: ModelCheckerSettings) -> Seq<(Seq<char>, JsonV)> {
    enc_model_checker_settings_upto(x, 11)
}

/// Appends one wire member group of the model checker settings.
fn model_checker_settings_step0(x: &ModelCheckerSettings, acc: Vec<(String, JsonValue)>) -> (r: Vec<
    (String, JsonValue),
>)
    ensures
        crate::json::jv_pairs(r@) == crate::json::jv_pairs(acc@) + enc_model_checker_settings_seg(*x, 0),
{
    let ghost av = acc@;
    let ghost g = crate::json::jv_pairs(acc@);
    let mut out = acc;
    match &x.contracts {
        Some(v) => out.push(("contracts".to_owned(), encode_map_strs(v))),
        None => {},
    }
    proof {
        crate::json::lemma_jv_pairs(out@);
        crate::json::lemma_jv_pairs(av);
        assert(crate::json::jv_pairs(out@) =~= g + enc_model_checker_settings_seg(*x, 0));
    }
    out
}

/// Appends one wire member group of the model checker settings.
fn model_checker_settings_step1(x: &ModelCheckerSettings, acc: Vec<(String, JsonValue)>) -> (r: Vec<
    (String, JsonValue),
>)
    ensures
        crate::json::jv_pairs(r@) == crate::json::jv_pairs(acc@) + enc_model_checker_settings_seg(*x, 1),
{
    let ghost av = acc@;
    let ghost g = crate::json::jv_pairs(acc@);
    let mut out = acc;
    match &x.div_mod_no_slacks {
        Some(v) => out.push(("divModNoSlacks".to_owned(), JsonValue::Bool(*v))),
        None => {},
    }
    proof {
        crate::json::lemma_jv_pairs(out@);
        crate::json::lemma_jv_pairs(av);
        assert(crate::json::jv_pairs(out@) =~= g + enc_model_checker_settings_seg(*x, 1));
    }
    out
}

/// Appends one wire member group of the model checker settings.
fn model_checker_settings_step2(x: &ModelCheckerSettings, acc: Vec<(String, JsonValue)>) -> (r: Vec<
    (String, JsonValue),
>)
    ensures
        crate::json::jv_pairs(r@) == crate::json::jv_pairs(acc@) + enc_model_checker_settings_seg(*x, 2),
{
    let ghost av = acc@;
    let ghost g = crate::json::jv_pairs(acc@);
    let mut out = acc;
    match &x.engine {
        Some(v) => out.push(("engine".to_owned(), JsonValue::Str(encode_engine(v)))),
        None => {},
    }
    proof {
        crate::json::lemma_jv_pairs(out@);
        crate::json::lemma_jv_pairs(av);
        assert(crate::json::jv_pairs(out@) =~= g + enc_model_checker_settings_seg(*x, 2));
    }
    out
}

/// Appends one wire member group of the model checker settings.
fn model_checker_settings_step3(x: &ModelCheckerSettings, acc: Vec<(String, JsonValue)>) -> (r: Vec<
    (String, JsonValue),
>)
    ensures
        crate::json::jv_pairs(r@) == crate::json::jv_pairs(acc@) + enc_model_checker_settings_seg(*x, 3),
{
    let ghost av = acc@;
    let ghost g = crate::json::jv_pairs(acc@);
    let mut out = acc;
    match &x.ext_calls {
        Some(v) => out.push(("extCalls".to_owned(), JsonValue::Str(encode_ext_calls(v)))),
        None => {},
    }
    proof {
        crate::json::lemma_jv_pairs(out@);
        crate::json::lemma_jv_pairs(av);
        assert(crate::json::jv_pairs(out@) =~= g + enc_model_checker_settings_seg(*x, 3));
    }
    out
}

/// Appends one wire member group of the model checker settings.
fn model_checker_settings_step4(x: &ModelCheckerSettings, acc: Vec<(String, JsonValue)>) -> (r: Vec<
    (String, JsonValue),
>)
    ensures
        crate::json::jv_pairs(r@) == crate::json::jv_pairs(acc@) + enc_model_checker_settings_seg(*x, 4),
{
    let ghost av = acc@;
    let ghost g = crate::json::jv_pairs(acc@);
    let mut out = acc;
    match &x.invariants {
        Some(v) => out.push(("invariants".to_owned(), encode_invariant_list(v))),
        None => {},
    }
    proof {
        crate::json::lemma_jv_pairs(out@);
        crate::json::lemma_jv_pairs(av);
        assert(crate::json::jv_pairs(out@) =~= g + enc_model_checker_settings_seg(*x, 4));
    }
    out
}

/// Appends one wire member group of the model checker settings.
fn model_checker_settings_step5(x: &ModelCheckerSettings, acc: Vec<(String, JsonValue)>) -> (r: Vec<
    (String, JsonValue),
>)
    ensures
        crate::json::jv_pairs(r@) == crate::json::jv_pairs(acc@) + enc_model_checker_settings_seg(*x, 5),
{
    let ghost av = acc@;
    let ghost g = crate::json::jv_pairs(acc@);
    let mut out = acc;
    match &x.show_proved_safe {
        Some(v) => out.push(("showProvedSafe".to_owned(), JsonValue::Bool(*v))),
        None => {},
    }
    proof {
        crate::json::lemma_jv_pairs(out@);
        crate::json::lemma_jv_pairs(av);
        assert(crate::json::jv_pairs(out@) =~= g + enc_model_checker_settings_seg(*x, 5));
    }
    out
}

/// Appends one wire member group of the model checker settings.
fn model_checker_settings_step6(x: &ModelCheckerSettings, acc: Vec<(String, JsonValue)>) -> (r: Vec<
    (String, JsonValue),
>)
    ensures
        crate::json::jv_pairs(r@) == crate::json::jv_pairs(acc@) + enc_model_checker_settings_seg(*x, 6),
{
    let ghost av = acc@;
    let ghost g = crate::json::jv_pairs(acc@);
    let mut out = acc;
    match &x.show_unproved {
        Some(v) => out.push(("showUnproved".to_owned(), JsonValue::Bool(*v))),
        None => {},
    }
    proof {
        crate::json::lemma_jv_pairs(out@);
        crate::json::lemma_jv_pairs(av);
        assert(crate::json::jv_pairs(out@) =~= g + enc_model_checker_settings_seg(*x, 6));
    }
    out
}

/// Appends one wire member group of the model checker settings.
fn model_checker_settings_step7(x: &ModelCheckerSettings, acc: Vec<(String, JsonValue)>) -> (r: Vec<
    (String, JsonValue),
>)
    ensures
        crate::json::jv_pairs(r@) == crate::json::jv_pairs(acc@) + enc_model_checker_settings_seg(*x, 7),
{
    let ghost av = acc@;
    let ghost g = crate::json::jv_pairs(acc@);
    let mut out = acc;
    match &x.show_unsupported {
        Some(v) => out.push(("showUnsupported".to_owned(), JsonValue::Bool(*v))),
        None => {},
    }
    proof {
        crate::json::lemma_jv_pairs(out@);
        crate::json::lemma_jv_pairs(av);
        assert(crate::json::jv_pairs(out@) =~= g + enc_model_checker_settings_seg(*x, 7));
    }
    out
}

/// Appends one wire member group of the model checker settings.
fn model_checker_settings_step8(x: &ModelCheckerSettings, acc: Vec<(String, JsonValue)>) -> (r: Vec<
    (String, JsonValue),
>)
    ensures
        crate::json::jv_pairs(r@) == crate::json::jv_pairs(acc@) + enc_model_checker_settings_seg(*x, 8),
{
    let ghost av = acc@;
    let ghost g = crate::json::jv_pairs(acc@);
    let mut out = acc;
    match &x.solvers {
        Some(v) => out.push(("solvers".to_owned(), encode_solver_list(v))),
        None => {},
    }
    proof {
        crate::json::lemma_jv_pairs(out@);
        crate::json::lemma_jv_pairs(av);
        assert(crate::json::jv_pairs(out@) =~= g + enc_model_checker_settings_seg(*x, 8));
    }
    out
}

/// Appends one wire member group of the model checker settings.
fn model_checker_settings_step9(x: &ModelCheckerSettings, acc: Vec<(String, JsonValue)>) -> (r: Vec<
    (String, JsonValue),
>)
    ensures
        crate::json::jv_pairs(r@) == crate::json::jv_pairs(acc@) + enc_model_checker_settings_seg(*x, 9),
{
    let ghost av = acc@;
    let ghost g = crate::json::jv_pairs(acc@);
    let mut out = acc;
    match &x.targets {
        Some(v) => out.push(("targets".to_owned(), encode_target_list(v))),
        None => {},
    }
    proof {
        crate::json::lemma_jv_pairs(out@);
        crate::json::lemma_jv_pairs(av);
        assert(crate::json::jv_pairs(out@) =~= g + enc_model_checker_settings_seg(*x, 9));
    }
    out
}

/// Appends one wire member group of the model checker settings.
fn model_checker_settings_step10(x: &ModelCheckerSettings, acc: Vec<(String, JsonValue)>) -> (r: Vec<
    (String, JsonValue),
>)
    ensures
        crate::json::jv_pairs(r@) == crate::json::jv_pairs(acc@) + enc_model_checker_settings_seg(*x, 10),
{
    let ghost av = acc@;
    let ghost g = crate::json::jv_pairs(acc@);
    let mut out = acc;
    match &x.timeout {
        Some(v) => out.push(("timeout".to_owned(), JsonValue::Int(#[verifier::truncate] ((*v) as i64)))),
        None => {},
    }
    proof {
        crate::json::lemma_jv_pairs(out@);
        crate::json::lemma_jv_pairs(av);
        assert(crate::json::jv_pairs(out@) =~= g + enc_model_checker_settings_seg(*x, 10));
    }
    out
}

/// Renders the model checker settings; an unset member does not appear at all.
pub fn encode_model_checker_settings(x: &ModelCheckerSettings) -> (r: Vec<(String, JsonValue)>)
    ensures
        crate::json::jv_pairs(r@) == enc_model_checker_settings(*x),
{
    let mut out: Vec<(String, JsonValue)> = Vec::new();
    proof {
        crate::json::lemma_jv_pairs(out@);
        assert(crate::json::jv_pairs(out@) =~= enc_model_checker_settings_upto(*x, 0));
    }
    out = model_checker_settings_step0(x, out);
    proof {
        assert(crate::json::jv_pairs(out@) =~= enc_model_checker_settings_upto(*x, 1));
    }
    out = model_checker_settings_step1(x, out);
    proof {
        assert(crate::json::jv_pairs(out@) =~= enc_model_checker_settings_upto(*x, 2));
    }
    out = model_checker_settings_step2(x, out);
    proof {
        assert(crate::json::jv_pairs(out@) =~= enc_model_checker_settings_upto(*x, 3));
    }
    out = model_checker_settings_step3(x, out);
    proof {
        assert(crate::json::jv_pairs(out@) =~= enc_model_checker_settings_upto(*x, 4));
    }
    out = model_checker_settings_step4(x, out);
    proof {
        assert(crate::json::jv_pairs(out@) =~= enc_model_checker_settings_upto(*x, 5));
    }
    out = model_checker_settings_step5(x, out);
    proof {
        assert(crate::json::jv_pairs(out@) =~= enc_model_checker_settings_upto(*x, 6));
    }
    out = model_checker_settings_step6(x, out);
    proof {
        assert(crate::json::jv_pairs(out@) =~= enc_model_checker_settings_upto(*x, 7));
    }
    out = model_checker_settings_step7(x, out);
    proof {
        assert(crate::json::jv_pairs(out@) =~= enc_model_checker_settings_upto(*x, 8));
    }
    out = model_checker_settings_step8(x, out);
    proof {
        assert(crate::json::jv_pairs(out@) =~= enc_model_checker_settings_upto(*x, 9));
    }
    out = model_checker_settings_step9(x, out);
    proof {
        assert(crate::json::jv_pairs(out@) =~= enc_model_checker_settings_upto(*x, 10));
    }
    out = model_checker_settings_step10(x, out);
    proof {
        assert(crate::json::jv_pairs(out@) =~= enc_model_checker_settings_upto(*x, 11));
    }
    out
}

/// The wire members of the debug settings.
pub open spec fn enc_debug_settings(x: DebugSettings) -> Seq<(Seq<char>, JsonV)> {
    seq![("revertStrings"@, JsonV::Str(spell_revert_strings(x.revert_strings)))] + seq![("debugInfo"@, JsonV::Arr(crate::ast::fields::strs_of(x.debug_info@)))]
}

/// Renders the debug settings; an unset member does not appear at all.
pub fn encode_debug_settings(x: &DebugSettings) -> (r: Vec<(String, JsonValue)>)
    ensures
        crate::json::jv_pairs(r@) == enc_debug_settings(*x),
{
    let mut out: Vec<(String, JsonValue)> = Vec::new();
    out.push(("revertStrings".to_owned(), JsonValue::Str(encode_revert_strings(&x.revert_strings))));
    proof {
        crate::json::lemma_jv_pairs(out@);
        assert(crate::json::jv_pairs(out@) =~= seq![("revertStrings"@, JsonV::Str(spell_revert_strings(x.revert_strings)))]);
    }
    out.push(("debugInfo".to_owned(), crate::ast::enc_node::enc_vec_str(&x.debug_info)));
    proof {
        crate::json::lemma_jv_pairs(out@);
        assert(crate::json::jv_pairs(out@) =~= seq![("revertStrings"@, JsonV::Str(spell_revert_strings(x.revert_strings)))] + seq![("debugInfo"@, JsonV::Arr(crate::ast::fields::strs_of(x.debug_info@)))]);
    }
    out
}

/// The wire members of the metadata settings.
pub open spec fn enc_metadata_settings(x: MetadataSettings) -> Seq<(Seq<char>, JsonV)> {
    (match x.append_cbor {
        Some(v) => seq![("appendCbor"@, JsonV::Bool(v))],
        None => Seq::empty(),
    }) + (match x.use_literal_content {
        Some(v) => seq![("useLiteralContent"@, JsonV::Bool(v))],
        None => Seq::empty(),
    }) + (match x.bytecode_hash {
        Some(v) => seq![("bytecodeHash"@, JsonV::Str(spell_bytecode_hash(v)))],
        None => Seq::empty(),
    })
}

/// Renders the metadata settings; an unset member does not appear at all.
pub fn encode_metadata_settings(x: &MetadataSettings) -> (r: Vec<(String, JsonValue)>)
    ensures
        crate::json::jv_pairs(r@) == enc_metadata_settings(*x),
{
    let mut out: Vec<(String, JsonValue)> = Vec::new();
    match &x.append_cbor {
        Some(v) => out.push(("appendCbor".to_owned(), JsonValue::Bool(*v))),
        None => {},
    }
    proof {
        crate::json::lemma_jv_pairs(out@);
        assert(crate::json::jv_pairs(out@) =~= (match x.append_cbor {
        Some(v) => seq![("appendCbor"@, JsonV::Bool(v))],
        None => Seq::empty(),
    }));
    }
    match &x.use_literal_content {
        Some(v) => out.push(("useLiteralContent".to_owned(), JsonValue::Bool(*v))),
        None => {},
    }
    proof {
        crate::json::lemma_jv_pairs(out@);
        assert(crate::json::jv_pairs(out@) =~= (match x.append_cbor {
        Some(v) => seq![("appendCbor"@, JsonV::Bool(v))],
        None => Seq::empty(),
    }) + (match x.use_literal_content {
        Some(v) => seq![("useLiteralContent"@, JsonV::Bool(v))],
        None => Seq::empty(),
    }));
    }
    match &x.bytecode_hash {
        Some(v) => out.push(("bytecodeHash".to_owned(), JsonValue::Str(encode_bytecode_hash(v)))),
        None => {},
    }
    proof {
        crate::json::lemma_jv_pairs(out@);
        assert(crate::json::jv_pairs(out@) =~= (match x.append_cbor {
        Some(v) => seq![("appendCbor"@, JsonV::Bool(v))],
        None => Seq::empty(),
    }) + (match x.use_literal_content {
        Some(v) => seq![("useLiteralContent"@, JsonV::Bool(v))],
        None => Seq::empty(),
    }) + (match x.bytecode_hash {
        Some(v) => seq![("bytecodeHash"@, JsonV::Str(spell_bytecode_hash(v)))],
        None => Seq::empty(),
    }));
    }
    out
}

/// The wire members of the source map, in insertion order.
pub open spec fn enc_sources(s: Seq<(String, Source)>) -> Seq<(Seq<char>, JsonV)> {
    s.map_values(|p: (String, Source)| (p.0@, JsonV::Obj(enc_source(p.1))))
}

/// Renders the source map.
pub fn encode_sources(v: &Vec<(String, Source)>) -> (r: JsonValue)
    ensures
        jv(r) == JsonV::Obj(enc_sources(v@)),
{
    let mut out: Vec<(String, JsonValue)> = Vec::new();
    let n = v.len();
    let mut i: usize = 0;
    while i < n
        invariant
            i <= n,
            n == v@.len(),
            out@.len() == i,
            forall|j: int| 0 <= j < i ==> (#[trigger] out@[j]).0@ == v@[j].0@ && jv(out@[j].1)
                == JsonV::Obj(enc_source(v@[j].1)),
        decreases n - i,
    {
        let key = v[i].0.clone();
        let entry = encode_source(&v[i].1);
        out.push((key, JsonValue::Obj(entry)));
        i += 1;
    }
    proof {
        crate::json::lemma_jv_pairs(out@);
        assert(crate::json::jv_pairs(out@) =~= enc_sources(v@));
    }
    JsonValue::Obj(out)
}

/// The wire form of a whole compiler input: the language, the source map,
/// and the settings, under their camel-case names.
pub open spec fn enc_input(x: StandardJsonInput) -> JsonV {
    JsonV::Obj(
        seq![
            ("language"@, JsonV::Str(spell_language(x.language))),
            ("sources"@, JsonV::Obj(enc_sources(x.sources@))),
            ("settings"@, JsonV::Obj(enc_settings(x.settings))),
        ],
    )
}

/// Renders a whole compiler input in its wire form.
pub fn encode_input(x: &StandardJsonInput) -> (r: JsonValue)
    ensures
        jv(r) == enc_input(*x),
{
    let mut out: Vec<(String, JsonValue)> = Vec::new();
    out.push(("language".to_owned(), JsonValue::Str(encode_language(&x.language))));
    out.push(("sources".to_owned(), encode_sources(&x.sources)));
    out.push(("settings".to_owned(), JsonValue::Obj(encode_settings(&x.settings))));
    proof {
        crate::json::lemma_jv_pairs(out@);
        assert(crate::json::jv_pairs(out@) =~~= enc_input(*x)->Obj_0);
    }
    JsonValue::Obj(out)
}

} // verus!
