//! The compile front-end of the pipeline builder.
//!
//! A reload hands this module the full text re-read from the watched file.
//! The front end accepts the text exactly when it parses as WGSL, exposes
//! the fragment entry point the fixed vertex stage expects, and declares no
//! resource binding other than the clock's uniform buffer; anything else is
//! a `LoadError` that the render loop surfaces without touching the bound
//! pipeline. What only the device can reject — stage-interface details,
//! resource exhaustion — is reported back to the render loop as a build
//! outcome event and surfaced the same way (see the render loop's build
//! protocol).

use vstd::prelude::*;

use naga::front::wgsl::parse_str;
use naga::{AddressSpace, ShaderStage, TypeInner};

verus! {

/// Pipeline stage an entry point belongs to.
#[derive(Clone, Copy, PartialEq, Eq, Structural, Debug)]
pub enum Stage {
    Vertex,
    Fragment,
    Compute,
}

/// An entry point exposed by a parsed shader module.
#[derive(Debug)]
pub struct EntryPoint {
    pub name: String,
    pub stage: Stage,
}

/// Spec-level image of an entry point.
pub ghost struct EntryPointView {
    pub name: Seq<char>,
    pub stage: Stage,
}

impl View for EntryPoint {
    type V = EntryPointView;

    open spec fn view(&self) -> EntryPointView {
        EntryPointView { name: self.name@, stage: self.stage }
    }
}

/// One global variable of a parsed shader module, reduced to what the
/// binding layout check reads.
#[derive(Clone, Copy, Debug)]
pub struct GlobalBinding {
    /// The (group, slot) resource binding point, for a resource; `None` for
    /// a private or workgroup variable.
    pub resource: Option<(u32, u32)>,
    /// Declared in the uniform address space.
    pub uniform: bool,
    /// The variable's type width in bytes when that type is a scalar;
    /// `None` for any non-scalar type.
    pub scalar_width: Option<u8>,
}

/// What a parsed module declares: its entry points and its global
/// variables, each in declaration order.
#[derive(Debug)]
pub struct ModuleFacts {
    pub entry_points: Vec<EntryPoint>,
    pub globals: Vec<GlobalBinding>,
}

/// Spec-level image of a parsed module's declarations.
pub ghost struct ModuleView {
    pub entry_points: Seq<EntryPointView>,
    pub globals: Seq<GlobalBinding>,
}

impl View for ModuleFacts {
    type V = ModuleView;

    open spec fn view(&self) -> ModuleView {
        ModuleView {
            entry_points: self.entry_points@.map_values(|e: EntryPoint| e@),
            globals: self.globals@,
        }
    }
}

/// What parsing a WGSL text yields, a function of the text alone: the
/// parser's diagnostic message when the text is rejected, and otherwise the
/// module's entry points and global variables. The name promises a value on
/// every text; the parser narrowly falls short of that — see the caveat on
/// the wrapper below, which every contract built on this name inherits.
pub uninterp spec fn wgsl_parse(source: Seq<char>) -> Result<ModuleView, Seq<char>>;

/// Relies on `naga::front::wgsl::parse_str`: parsing depends on the source
/// text alone — on success the parsed module's entry points and globals are
/// handed out, on failure the parser's diagnostic message. The conversion
/// moves fields and tells variants apart; no sizes are computed here.
///
/// Caveat — a known gap in this contract that Verus cannot express: inside
/// `parse_str`, naga's layout pass (`proc::Layouter::update`) computes each
/// type's byte size with `TypeInner::size`, which multiplies a fixed array's
/// element count by its stride in unchecked `u32` arithmetic
/// (naga's `proc` module). A one-line source declaring an array of about
/// 2^30 four-byte elements therefore panics in builds with overflow checks
/// on, instead of returning the `Err` this contract promises (release
/// builds wrap and still return). No `requires` over the raw text can
/// exclude that class, and these sources refuse `std::panic` in the
/// library, so the call cannot be fenced; the reload path's no-panic
/// guarantee holds short of this one parser defect.
#[verifier::external_body]
pub(crate) fn parse_wgsl(source: &str) -> (r: Result<ModuleFacts, String>)
    ensures
        r is Ok <==> wgsl_parse(source@) is Ok,
        r matches Ok(facts) ==> (wgsl_parse(source@) matches Ok(m) && m == facts@),
        r matches Err(d) ==> (wgsl_parse(source@) matches Err(p) && p == d@),
{
    match parse_str(source) {
        Err(e) => Err(e.message().to_string()),
        Ok(m) => Ok(ModuleFacts {
            entry_points: m.entry_points.iter().map(|e| EntryPoint {
                name: e.name.clone(),
                stage: match e.stage {
                    ShaderStage::Vertex => Stage::Vertex,
                    ShaderStage::Fragment => Stage::Fragment,
                    ShaderStage::Compute => Stage::Compute } }).collect(),
            globals: m.global_variables.iter().map(|(_, g)| GlobalBinding {
                resource: g.binding.as_ref().map(|b| (b.group, b.binding)),
                uniform: g.space == AddressSpace::Uniform,
                scalar_width: match m.types[g.ty].inner {
                    TypeInner::Scalar { width, .. } => Some(width), _ => None } }).collect() }),
    }
}

/// Name of the fragment entry point every built pipeline binds.
pub open spec fn fragment_entry_name() -> Seq<char> {
    "fs_main"@
}

/// The fixed diagnostic surfaced when a source parses but exposes no
/// `fs_main` fragment entry point.
pub open spec fn missing_entry_diagnostic() -> Seq<char> {
    "shader does not define a fragment entry point named fs_main"@
}

/// The fixed diagnostic surfaced when a source parses but declares a
/// resource binding the clock layout does not admit.
pub open spec fn foreign_binding_diagnostic() -> Seq<char> {
    "shader declares a resource binding other than the time uniform at group 0, binding 0"@
}

/// The entry list exposes a fragment-stage entry point under the expected
/// name.
pub open spec fn has_fragment_entry(eps: Seq<EntryPointView>) -> bool {
    exists|i: int|
        0 <= i < eps.len() && eps[i].stage == Stage::Fragment && eps[i].name
            == fragment_entry_name()
}

/// The fixed binding layout admits the module's resource declarations:
/// every global bound to a resource slot is the clock's uniform — group 0,
/// slot 0, uniform address space, a scalar no wider than the four-byte
/// clock buffer — and no second global claims a slot.
pub open spec fn globals_fit_clock_binding(globals: Seq<GlobalBinding>) -> bool {
    &&& forall|i: int|
        0 <= i < globals.len() && (#[trigger] globals[i]).resource is Some
            ==> globals[i].resource == Some((0u32, 0u32)) && globals[i].uniform
            && (globals[i].scalar_width matches Some(w) && w <= 4)
    &&& forall|i: int, j: int|
        0 <= i < globals.len() && 0 <= j < globals.len()
            && (#[trigger] globals[i]).resource is Some
            && (#[trigger] globals[j]).resource is Some ==> i == j
}

/// The front end accepts a fragment source: it parses as WGSL, exposes the
/// `fs_main` fragment entry point, and declares no resource binding beyond
/// the clock's uniform buffer. What remains for the device to reject is
/// reported through the build outcome, never by a crash.
pub open spec fn front_end_accepts(source: Seq<char>) -> bool {
    &&& wgsl_parse(source) is Ok
    &&& has_fragment_entry(wgsl_parse(source)->Ok_0.entry_points)
    &&& globals_fit_clock_binding(wgsl_parse(source)->Ok_0.globals)
}

/// Why a reload attempt produced no new pipeline.
#[derive(Debug)]
pub enum LoadError {
    /// The shader text failed to produce a valid pipeline; carries the
    /// front-end or device diagnostic.
    Compile { diagnostic: String },
    /// The watched file could not be re-read; carries the reader's message.
    FileRead { diagnostic: String },
}

impl LoadError {
    /// The diagnostic text to surface to the user.
    pub open spec fn spec_diagnostic(&self) -> Seq<char> {
        match self {
            LoadError::Compile { diagnostic } => diagnostic@,
            LoadError::FileRead { diagnostic } => diagnostic@,
        }
    }

    /// The diagnostic text to surface to the user.
    pub fn diagnostic(&self) -> (d: &String)
        ensures
            d@ == self.spec_diagnostic(),
    {
        match self {
            LoadError::Compile { diagnostic } => diagnostic,
            LoadError::FileRead { diagnostic } => diagnostic,
        }
    }
}

/// Does the entry list expose the expected fragment entry point?
fn find_fragment_entry(eps: &Vec<EntryPoint>) -> (found: bool)
    ensures
        found == has_fragment_entry(eps@.map_values(|e: EntryPoint| e@)),
{
    let ghost veps = eps@.map_values(|e: EntryPoint| e@);
    let expected: String = "fs_main".to_owned();
    let mut i: usize = 0;
    while i < eps.len()
        invariant
            0 <= i <= eps.len(),
            veps == eps@.map_values(|e: EntryPoint| e@),
            expected@ == fragment_entry_name(),
            forall|j: int|
                0 <= j < i ==> !(veps[j].stage == Stage::Fragment && veps[j].name
                    == fragment_entry_name()),
        decreases eps.len() - i,
    {
        let e = &eps[i];
        proof {
            assert(veps[i as int] == eps@[i as int]@);
        }
        if e.stage == Stage::Fragment && e.name == expected {
            return true;
        }
        i += 1;
    }
    false
}

/// Do the module's globals fit the fixed clock binding layout?
fn fits_clock_binding(globals: &Vec<GlobalBinding>) -> (fits: bool)
    ensures
        fits == globals_fit_clock_binding(globals@),
{
    let mut bound_seen = false;
    let mut i: usize = 0;
    while i < globals.len()
        invariant
            0 <= i <= globals.len(),
            forall|j: int|
                0 <= j < i && (#[trigger] globals@[j]).resource is Some
                    ==> globals@[j].resource == Some((0u32, 0u32)) && globals@[j].uniform
                    && (globals@[j].scalar_width matches Some(w) && w <= 4),
            bound_seen == exists|j: int| 0 <= j < i && (#[trigger] globals@[j]).resource is Some,
            forall|j: int, k: int|
                0 <= j < i && 0 <= k < i && (#[trigger] globals@[j]).resource is Some
                    && (#[trigger] globals@[k]).resource is Some ==> j == k,
        decreases globals.len() - i,
    {
        let g = &globals[i];
        match g.resource {
            Some((group, slot)) => {
                if bound_seen {
                    return false;
                }
                let narrow_scalar = match g.scalar_width {
                    Some(w) => w <= 4,
                    None => false,
                };
                if group != 0 || slot != 0 || !g.uniform || !narrow_scalar {
                    proof {
                        assert(!(globals@[i as int].resource == Some((0u32, 0u32))
                            && globals@[i as int].uniform && (globals@[i as int].scalar_width
                            matches Some(w) && w <= 4)));
                    }
                    return false;
                }
                bound_seen = true;
            },
            None => {},
        }
        i += 1;
    }
    true
}

/// Accept or reject a fragment source, as the pipeline builder's compile
/// front end does: the source is accepted exactly when it parses as WGSL,
/// exposes the `fs_main` fragment entry point, and declares no resource
/// binding beyond the clock's uniform buffer; every rejection carries a
/// fixed diagnostic — the parser's own message when parsing failed, and
/// one fixed text for each of the two front-end policies otherwise — and
/// no pipeline state is touched. (The parser itself narrowly falls short
/// of total: see the caveat on the parse wrapper, which this contract
/// inherits.)
pub fn validate_fragment_source(source: &str) -> (r: Result<ModuleFacts, LoadError>)
    ensures
        r is Ok <==> front_end_accepts(source@),
        r matches Ok(facts) ==> (wgsl_parse(source@) matches Ok(m) && m == facts@),
        r matches Err(e) ==> e is Compile,
        wgsl_parse(source@) matches Err(d) ==> (r matches Err(e) && e.spec_diagnostic() == d),
        wgsl_parse(source@) matches Ok(m) ==> (!has_fragment_entry(m.entry_points) ==> (r
            matches Err(e) && e.spec_diagnostic() == missing_entry_diagnostic())),
        wgsl_parse(source@) matches Ok(m) ==> ((has_fragment_entry(m.entry_points)
            && !globals_fit_clock_binding(m.globals)) ==> (r matches Err(e)
            && e.spec_diagnostic() == foreign_binding_diagnostic())),
{
    match parse_wgsl(source) {
        Err(diagnostic) => Err(LoadError::Compile { diagnostic }),
        Ok(facts) => {
            if !find_fragment_entry(&facts.entry_points) {
                Err(
                    LoadError::Compile {
                        diagnostic: "shader does not define a fragment entry point named fs_main".to_owned(),
                    },
                )
            } else if !fits_clock_binding(&facts.globals) {
                Err(
                    LoadError::Compile {
                        diagnostic: "shader declares a resource binding other than the time uniform at group 0, binding 0".to_owned(),
                    },
                )
            } else {
                Ok(facts)
            }
        },
    }
}

} // verus!
