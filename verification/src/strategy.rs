use vstd::prelude::*;

verus! {

/// Names an output (monitor).
#[derive(Debug, Clone)]
pub struct OutputId(pub String);

/// What a presentation strategy asks of the surface on one output.
#[derive(Debug)]
pub struct SurfaceRequirements {
    pub output: OutputId,
    pub width: u32,
    pub height: u32,
    pub visible: bool,
}

/// What a pointer position falls on.
#[derive(Debug)]
pub enum HitTestResult {
    Notification(u32),
    Action { notification_id: u32, action_key: String },
    DismissButton(u32),
}

} // verus!
