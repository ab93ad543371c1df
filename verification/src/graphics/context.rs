//! Which graphics context is asked for, and what is reported of the one that was given.
use vstd::prelude::*;

use super::version::GraphicsDiagnostics;
use crate::text;

verus! {

/// A kind and version of the graphics library to ask for.
#[derive(Clone, Copy, Debug, PartialEq, Eq, Structural)]
pub enum GlContextPlan {
    /// The core profile.
    Desktop { major: u8, minor: u8 },
    /// The embedded kind.
    Gles { major: u8, minor: u8 },
}

/// The name of a plan.
pub open spec fn plan_label(plan: GlContextPlan) -> Seq<char> {
    if plan == (GlContextPlan::Desktop { major: 4, minor: 1 }) {
        "OpenGL 4.1 Core"@
    } else if plan == (GlContextPlan::Desktop { major: 3, minor: 3 }) {
        "OpenGL 3.3 Core"@
    } else if plan == (GlContextPlan::Gles { major: 3, minor: 0 }) {
        "OpenGL ES 3.0"@
    } else {
        "unsupported graphics plan"@
    }
}

impl GlContextPlan {
    /// The name of the plan.
    pub fn label(self) -> (label: &'static str)
        ensures
            label@ == plan_label(self),
    {
        match self {
            GlContextPlan::Desktop { major, minor } => if major == 4 && minor == 1 {
                "OpenGL 4.1 Core"
            } else if major == 3 && minor == 3 {
                "OpenGL 3.3 Core"
            } else {
                "unsupported graphics plan"
            },
            GlContextPlan::Gles { major, minor } => if major == 3 && minor == 0 {
                "OpenGL ES 3.0"
            } else {
                "unsupported graphics plan"
            },
        }
    }
}

/// The priority to ask for.
#[derive(Clone, Copy, Debug, PartialEq, Eq, Structural)]
pub enum GlContextPriorityRequest {
    /// Before other programs.
    High,
    /// As the system has it.
    Default,
}

/// The name of a requested priority.
pub open spec fn request_label(request: GlContextPriorityRequest) -> Seq<char> {
    match request {
        GlContextPriorityRequest::High => "High"@,
        GlContextPriorityRequest::Default => "Default"@,
    }
}

impl GlContextPriorityRequest {
    /// The name of the priority.
    pub fn label(self) -> (label: &'static str)
        ensures
            label@ == request_label(self),
    {
        match self {
            GlContextPriorityRequest::High => "High",
            GlContextPriorityRequest::Default => "Default",
        }
    }
}

/// The plans, in the order in which they are tried.
pub open spec fn plans() -> Seq<GlContextPlan> {
    seq![
        GlContextPlan::Desktop { major: 4, minor: 1 },
        GlContextPlan::Desktop { major: 3, minor: 3 },
        GlContextPlan::Gles { major: 3, minor: 0 },
    ]
}

/// The priorities, in the order in which they are tried.
pub open spec fn priority_requests() -> Seq<GlContextPriorityRequest> {
    seq![GlContextPriorityRequest::High, GlContextPriorityRequest::Default]
}

/// The attempt with a number: every priority of a plan before the next plan.
pub open spec fn attempt(index: int) -> (GlContextPlan, GlContextPriorityRequest) {
    (plans()[index / 2], priority_requests()[index % 2])
}

/// How many attempts there are.
pub const ATTEMPTS: usize = 6;

/// The plans, in the order in which they are tried.
pub fn gl_context_plans() -> (out: [GlContextPlan; 3])
    ensures
        out@ == plans(),
{
    let out = [
        GlContextPlan::Desktop { major: 4, minor: 1 },
        GlContextPlan::Desktop { major: 3, minor: 3 },
        GlContextPlan::Gles { major: 3, minor: 0 },
    ];
    assert(out@ =~= plans());
    out
}

/// The priorities, in the order in which they are tried.
pub fn gl_context_priority_requests() -> (out: [GlContextPriorityRequest; 2])
    ensures
        out@ == priority_requests(),
{
    let out = [GlContextPriorityRequest::High, GlContextPriorityRequest::Default];
    assert(out@ =~= priority_requests());
    out
}

/// All attempts, in their order.
pub fn gl_context_attempts() -> (out: Vec<(GlContextPlan, GlContextPriorityRequest)>)
    ensures
        out@ == Seq::new(ATTEMPTS as nat, |i: int| attempt(i)),
{
    let plans = gl_context_plans();
    let requests = gl_context_priority_requests();
    let mut out: Vec<(GlContextPlan, GlContextPriorityRequest)> = Vec::new();
    let mut index: usize = 0;
    while index < ATTEMPTS
        invariant
            index <= ATTEMPTS,
            plans@ == self::plans(),
            requests@ == priority_requests(),
            out@.len() == index,
            forall|i: int| 0 <= i < index ==> #[trigger] out@[i] == attempt(i),
        decreases ATTEMPTS - index,
    {
        out.push((plans[index / 2], requests[index % 2]));
        index += 1;
    }
    assert(out@ =~= Seq::new(ATTEMPTS as nat, |i: int| attempt(i)));
    out
}

/// The search for a context that the system gives.
pub struct ContextSearch {
    /// How many attempts failed.
    pub failed: usize,
    /// A line on each of them.
    pub errors: String,
}

/// The line on a failed attempt.
pub open spec fn error_line(
    attempt: (GlContextPlan, GlContextPriorityRequest),
    error: Seq<char>,
) -> Seq<char> {
    plan_label(attempt.0) + " / "@ + request_label(attempt.1) + " priority: "@ + error + "\n"@
}

impl ContextSearch {
    /// Whether no more attempts failed than there are.
    pub open spec fn wf(self) -> bool {
        self.failed <= ATTEMPTS
    }

    /// Nothing was tried.
    pub fn new() -> (search: Self)
        ensures
            search.wf(),
            search.failed == 0,
            search.errors@ == Seq::<char>::empty(),
    {
        ContextSearch { failed: 0, errors: String::new() }
    }

    /// What to try next, while there is anything left.
    pub fn next(&self) -> (next: Option<(GlContextPlan, GlContextPriorityRequest)>)
        requires
            self.wf(),
        ensures
            next == if self.failed < ATTEMPTS {
                Some(attempt(self.failed as int))
            } else {
                None
            },
    {
        if self.failed < ATTEMPTS {
            let plans = gl_context_plans();
            let requests = gl_context_priority_requests();
            Some((plans[self.failed / 2], requests[self.failed % 2]))
        } else {
            None
        }
    }

    /// Notes that the system refused the attempt.
    pub fn refused(&mut self, error: &str)
        requires
            old(self).wf(),
            old(self).failed < ATTEMPTS,
        ensures
            final(self).wf(),
            final(self).failed == old(self).failed + 1,
            final(self).errors@ == old(self).errors@ + error_line(
                attempt(old(self).failed as int),
                error@,
            ),
    {
        let ghost before = self.errors@;
        let plans = gl_context_plans();
        let requests = gl_context_priority_requests();
        let plan = plans[self.failed / 2];
        let request = requests[self.failed % 2];
        self.errors.push_str(plan.label());
        self.errors.push_str(" / ");
        self.errors.push_str(request.label());
        self.errors.push_str(" priority: ");
        self.errors.push_str(error);
        self.errors.push_str("\n");
        self.failed = self.failed + 1;
        assert(self.errors@ =~= before + error_line(attempt(self.failed - 1), error@));
    }

    /// What is said when every attempt failed.
    pub fn failure(&self) -> (message: String)
        ensures
            message@ == "failed to create supported graphics context:\n"@ + self.errors@,
    {
        text::concat("failed to create supported graphics context:\n", self.errors.as_str())
    }
}

/// A framebuffer that the system offers.
#[derive(Clone, Copy, Debug, PartialEq, Eq, Structural)]
pub struct FramebufferConfig {
    /// Whether hardware draws into it.
    pub hardware_accelerated: bool,
    /// The samples for each pixel.
    pub num_samples: u8,
}

/// The rank of a framebuffer: hardware first, then few samples. Ranks are ordered by their first
/// part, and by their second where it is the same.
pub fn framebuffer_config_rank(hardware_accelerated: bool, num_samples: u8) -> (rank: (bool, u8))
    ensures
        rank.0 == hardware_accelerated,
        rank.1 == u8::MAX - num_samples,
{
    (hardware_accelerated, 255 - num_samples)
}

/// Whether a framebuffer ranks before another.
pub open spec fn ranks_before(config: FramebufferConfig, other: FramebufferConfig) -> bool {
    if config.hardware_accelerated == other.hardware_accelerated {
        config.num_samples < other.num_samples
    } else {
        config.hardware_accelerated
    }
}

fn is_before(config: FramebufferConfig, other: FramebufferConfig) -> (before: bool)
    ensures
        before == ranks_before(config, other),
{
    let rank = framebuffer_config_rank(config.hardware_accelerated, config.num_samples);
    let against = framebuffer_config_rank(other.hardware_accelerated, other.num_samples);
    if rank.0 == against.0 {
        rank.1 > against.1
    } else {
        rank.0
    }
}

/// The framebuffer to take: none ranks before it, and it is the last of those that do not.
pub fn preferred_framebuffer(configs: &[FramebufferConfig]) -> (index: Option<usize>)
    ensures
        index is None <==> configs@.len() == 0,
        index matches Some(best) ==> {
            &&& best < configs@.len()
            &&& forall|i: int|
                0 <= i < configs@.len() ==> !ranks_before(
                    #[trigger] configs@[i],
                    configs@[best as int],
                )
            &&& forall|i: int|
                best < i < configs@.len() ==> ranks_before(
                    configs@[best as int],
                    #[trigger] configs@[i],
                )
        },
{
    if configs.len() == 0 {
        return None;
    }
    let mut best: usize = 0;
    let mut at: usize = 1;
    while at < configs.len()
        invariant
            best < at <= configs@.len(),
            forall|i: int|
                0 <= i < at ==> !ranks_before(#[trigger] configs@[i], configs@[best as int]),
            forall|i: int|
                best < i < at ==> ranks_before(configs@[best as int], #[trigger] configs@[i]),
        decreases configs@.len() - at,
    {
        if !is_before(configs[best], configs[at]) {
            best = at;
        }
        at += 1;
    }
    Some(best)
}

/// The priority that a context has.
#[derive(Clone, Copy, Debug, PartialEq, Eq, Structural)]
pub enum ContextPriority {
    /// Behind other programs.
    Low,
    /// As other programs.
    Medium,
    /// Before other programs.
    High,
    /// Before everything.
    Realtime,
}

/// The name of a priority.
pub open spec fn priority_text(priority: ContextPriority) -> Seq<char> {
    match priority {
        ContextPriority::Low => "Low"@,
        ContextPriority::Medium => "Medium"@,
        ContextPriority::High => "High"@,
        ContextPriority::Realtime => "Realtime"@,
    }
}

/// The name of a priority.
pub fn priority_label(priority: ContextPriority) -> (label: &'static str)
    ensures
        label@ == priority_text(priority),
{
    match priority {
        ContextPriority::Low => "Low",
        ContextPriority::Medium => "Medium",
        ContextPriority::High => "High",
        ContextPriority::Realtime => "Realtime",
    }
}

/// What the system gave.
pub struct ContextReport {
    /// The plan that succeeded.
    pub plan: GlContextPlan,
    /// The priority that was asked for.
    pub request: GlContextPriorityRequest,
    /// The priority that was given.
    pub priority: ContextPriority,
    /// Whether hardware draws.
    pub hardware_accelerated: bool,
    /// The samples for each pixel.
    pub num_samples: u8,
    /// The bits of the depth buffer.
    pub depth_size: u8,
    /// The bits of the stencil buffer.
    pub stencil_size: u8,
    /// The bits of the alpha channel.
    pub alpha_size: u8,
    /// Whether colours can be stored in sRGB.
    pub srgb_capable: bool,
    /// Whether windows can be transparent, where the system says so.
    pub transparency: Option<bool>,
    /// The width of the window in pixels.
    pub width: u32,
    /// Its height.
    pub height: u32,
    /// Whether the wait for the screen could be set.
    pub swap_interval_applied: bool,
}

/// A flag in a report.
pub open spec fn flag(value: bool) -> Seq<char> {
    if value {
        "true"@
    } else {
        "false"@
    }
}

/// A flag in a report that may be unknown.
pub open spec fn known_flag(value: Option<bool>) -> Seq<char> {
    match value {
        Some(known) => if known {
            "Some(true)"@
        } else {
            "Some(false)"@
        },
        None => "None"@,
    }
}

/// The lines on the context.
pub open spec fn context_lines(report: ContextReport) -> Seq<char> {
    "Context request: "@ + plan_label(report.plan) + " / "@ + request_label(report.request)
        + " priority\nActual context priority: "@ + priority_text(report.priority)
}

/// The lines on the graphics library.
pub open spec fn library_lines(gl: GraphicsDiagnostics) -> Seq<char> {
    "\nOpenGL: "@ + gl.version@ + "\nGLSL: "@ + gl.shading_language@ + "\nGPU: "@ + gl.vendor@
        + " / "@ + gl.renderer@
}

/// The line on the framebuffer.
pub open spec fn framebuffer_line(report: ContextReport) -> Seq<char> {
    "\nFramebuffer: hardware="@ + flag(report.hardware_accelerated) + " samples="@ + text::decimal(
        report.num_samples as nat,
    ) + " depth="@ + text::decimal(report.depth_size as nat) + " stencil="@ + text::decimal(
        report.stencil_size as nat,
    ) + " alpha="@ + text::decimal(report.alpha_size as nat) + " srgb="@ + flag(report.srgb_capable)
        + " transparent="@ + known_flag(report.transparency)
}

/// The lines on the window, where `scale` is its scale factor as it is written.
pub open spec fn window_lines(report: ContextReport, scale: Seq<char>) -> Seq<char> {
    "\nFramebuffer size: "@ + text::decimal(report.width as nat) + "x"@ + text::decimal(
        report.height as nat,
    ) + "\nScale factor: "@ + scale + "\nSwap interval: Wait(1), applied="@ + flag(
        report.swap_interval_applied,
    )
}

fn flag_text(value: bool) -> (out: &'static str)
    ensures
        out@ == flag(value),
{
    if value {
        "true"
    } else {
        "false"
    }
}

fn known_flag_text(value: Option<bool>) -> (out: &'static str)
    ensures
        out@ == known_flag(value),
{
    match value {
        Some(known) => if known {
            "Some(true)"
        } else {
            "Some(false)"
        },
        None => "None",
    }
}

fn push_context_lines(out: &mut String, report: &ContextReport)
    ensures
        final(out)@ == old(out)@ + context_lines(*report),
{
    let ghost before = out@;
    out.push_str("Context request: ");
    out.push_str(report.plan.label());
    out.push_str(" / ");
    out.push_str(report.request.label());
    out.push_str(" priority\nActual context priority: ");
    out.push_str(priority_label(report.priority));
    assert(out@ =~= before + context_lines(*report));
}

fn push_library_lines(out: &mut String, gl: &GraphicsDiagnostics)
    ensures
        final(out)@ == old(out)@ + library_lines(*gl),
{
    let ghost before = out@;
    out.push_str("\nOpenGL: ");
    out.push_str(gl.version.as_str());
    out.push_str("\nGLSL: ");
    out.push_str(gl.shading_language.as_str());
    out.push_str("\nGPU: ");
    out.push_str(gl.vendor.as_str());
    out.push_str(" / ");
    out.push_str(gl.renderer.as_str());
    assert(out@ =~= before + library_lines(*gl));
}

fn push_framebuffer_line(out: &mut String, report: &ContextReport)
    ensures
        final(out)@ == old(out)@ + framebuffer_line(*report),
{
    let ghost before = out@;
    out.push_str("\nFramebuffer: hardware=");
    out.push_str(flag_text(report.hardware_accelerated));
    out.push_str(" samples=");
    text::push_decimal(out, report.num_samples as u64);
    out.push_str(" depth=");
    text::push_decimal(out, report.depth_size as u64);
    out.push_str(" stencil=");
    text::push_decimal(out, report.stencil_size as u64);
    out.push_str(" alpha=");
    text::push_decimal(out, report.alpha_size as u64);
    out.push_str(" srgb=");
    out.push_str(flag_text(report.srgb_capable));
    out.push_str(" transparent=");
    out.push_str(known_flag_text(report.transparency));
    assert(out@ =~= before + framebuffer_line(*report));
}

fn push_window_lines(out: &mut String, report: &ContextReport, scale: &str)
    ensures
        final(out)@ == old(out)@ + window_lines(*report, scale@),
{
    let ghost before = out@;
    out.push_str("\nFramebuffer size: ");
    text::push_decimal(out, report.width as u64);
    out.push_str("x");
    text::push_decimal(out, report.height as u64);
    out.push_str("\nScale factor: ");
    out.push_str(scale);
    out.push_str("\nSwap interval: Wait(1), applied=");
    out.push_str(flag_text(report.swap_interval_applied));
    assert(out@ =~= before + window_lines(*report, scale@));
}

/// The report on the graphics, where `scale` is the scale factor of the window as it is written.
pub fn diagnostics_report(
    report: &ContextReport,
    gl: &GraphicsDiagnostics,
    scale: &str,
) -> (lines: String)
    ensures
        lines@ == context_lines(*report) + library_lines(*gl) + framebuffer_line(*report)
            + window_lines(*report, scale@),
{
    let mut lines = String::new();
    push_context_lines(&mut lines, report);
    push_library_lines(&mut lines, gl);
    push_framebuffer_line(&mut lines, report);
    push_window_lines(&mut lines, report, scale);
    assert(lines@ =~= context_lines(*report) + library_lines(*gl) + framebuffer_line(*report)
        + window_lines(*report, scale@));
    lines
}

/// A lower priority is tried before another plan is: the attempts on a plan are next to each other,
/// and every plan is tried with every priority.
pub proof fn priority_falls_back_within_a_plan(plan: int, request: int)
    requires
        0 <= plan < plans().len(),
        0 <= request < priority_requests().len(),
    ensures
        0 <= 2 * plan + request < ATTEMPTS,
        attempt(2 * plan + request) == (plans()[plan], priority_requests()[request]),
{
}

/// Of two framebuffers with different ranks one goes before the other, and the rank decides which.
pub proof fn ranks_are_ordered(config: FramebufferConfig, other: FramebufferConfig)
    ensures
        !(ranks_before(config, other) && ranks_before(other, config)),
        config != other ==> ranks_before(config, other) || ranks_before(other, config),
        config.hardware_accelerated && !other.hardware_accelerated ==> ranks_before(config, other),
{
}

} // verus!
