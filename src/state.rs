//! The modal editing state that the indicator reads: a value snapshot
//! published by the editing engine.
use vstd::prelude::*;
use vstd::string::StringExecFns;

verus! {

/// The edit modes of the modal editor.
#[derive(Clone, Copy, Debug, PartialEq, Eq, Structural)]
pub enum Mode {
    Normal,
    Insert,
    Replace,
    Visual,
    VisualLine,
    VisualBlock,
    OperatorPending,
}

/// The name under which each mode is shown to the user.
pub open spec fn mode_name(m: Mode) -> Seq<char> {
    match m {
        Mode::Normal => "NORMAL"@,
        Mode::Insert => "INSERT"@,
        Mode::Replace => "REPLACE"@,
        Mode::Visual => "VISUAL"@,
        Mode::VisualLine => "VISUAL LINE"@,
        Mode::VisualBlock => "VISUAL BLOCK"@,
        Mode::OperatorPending => "OPERATORPENDING"@,
    }
}

impl Mode {
    /// The display name of this mode.
    pub fn display_name(&self) -> (r: &'static str)
        ensures
            r@ == mode_name(*self),
    {
        match self {
            Mode::Normal => "NORMAL",
            Mode::Insert => "INSERT",
            Mode::Replace => "REPLACE",
            Mode::Visual => "VISUAL",
            Mode::VisualLine => "VISUAL LINE",
            Mode::VisualBlock => "VISUAL BLOCK",
            Mode::OperatorPending => "OPERATORPENDING",
        }
    }
}

/// A pending operator, awaiting a motion; known by its short identifier.
#[derive(Debug)]
pub struct Operator {
    id: String,
}

impl View for Operator {
    type V = Seq<char>;

    /// The operator's identifier.
    closed spec fn view(&self) -> Seq<char> {
        self.id@
    }
}

impl Operator {
    pub fn new(id: &str) -> (r: Operator)
        ensures
            r@ == id@,
    {
        Operator { id: String::from_str(id) }
    }

    /// The short textual identifier of this operator.
    pub fn id(&self) -> (r: &str)
        ensures
            r@ == self@,
    {
        self.id.as_str()
    }
}

/// A snapshot of the modal editing state.
#[derive(Debug)]
pub struct VimState {
    /// Whether modal editing is active at all.
    pub enabled: bool,
    pub mode: Mode,
    /// A repeat count typed before any operator.
    pub pre_count: Option<usize>,
    /// The register selected with `"`.
    pub selected_register: Option<char>,
    /// The pending operators, oldest first.
    pub operator_stack: Vec<Operator>,
    /// A repeat count typed after an operator.
    pub post_count: Option<usize>,
}

} // verus!
