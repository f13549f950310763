//! Plain UI state of the editor and of the Conversion Hub.
use vstd::prelude::*;

verus! {

/// Three-phase state machine for the Conversion Hub.
#[derive(PartialEq, Eq, Structural, Clone, Copy, Debug)]
pub enum HubPhase {
    /// No file loaded - show drop zone + Browse button.
    Idle,
    /// At least one file loaded - show file list + actions.
    FileReady,
    /// User clicked Convert - show format grid.
    FormatPick,
}

/// Per-file status in the conversion queue.
#[derive(PartialEq, Eq, Structural, Clone, Copy, Debug)]
pub enum FileStatus {
    /// Loaded, not yet converted.
    Pending,
    /// Converted successfully.
    Done,
    /// Conversion failed (see `message`).
    Failed,
}

/// One file loaded into the hub (drag&drop or browse).
pub struct HubFile {
    /// Path of the loaded file.
    pub path: String,
    pub status: FileStatus,
    /// Output path of the last successful conversion of this file.
    pub output_path: Option<String>,
    /// Per-file status / error message.
    pub message: String,
    /// Per-file target format (its file extension). `None` = use the batch target.
    pub target: Option<String>,
}

impl HubFile {
    /// A freshly loaded file: pending, with no output, message or target.
    pub fn new(path: String) -> (f: Self)
        ensures
            f.path@ == path@,
            f.status == FileStatus::Pending,
            f.output_path is None,
            f.message@ == Seq::<char>::empty(),
            f.target is None,
    {
        HubFile {
            path,
            status: FileStatus::Pending,
            output_path: None,
            message: String::new(),
            target: None,
        }
    }
}

/// Conversion Hub runtime state (multi-file + batch queue).
pub struct ConversionHub {
    pub phase: HubPhase,
    /// All loaded files (one = single-file flow, many = batch flow).
    pub files: Vec<HubFile>,
    /// Markdown source after import of the single file (for "Open in Editor").
    pub converted_md: Option<String>,
    /// Index of the file whose per-file options panel is expanded.
    pub selected: Option<usize>,
    /// Chosen output format for the batch (per-file `target` overrides it).
    pub batch_target: Option<String>,
    /// True while the format-picker grid is shown.
    pub pick_format: bool,
    /// Global status / error message.
    pub status: String,
    pub is_error: bool,
    /// True while a file is being dragged over the window.
    pub hovering: bool,
    /// True while the batch queue is being processed (one file per frame).
    pub converting: bool,
    /// Next file index to process in the batch queue.
    pub queue_index: usize,
}

impl Default for ConversionHub {
    /// An idle hub with no files and no pending work.
    fn default() -> (h: Self)
        ensures
            h.phase == HubPhase::Idle,
            h.files@.len() == 0,
            h.converted_md is None,
            h.selected is None,
            h.batch_target is None,
            !h.pick_format,
            h.status@ == Seq::<char>::empty(),
            !h.is_error,
            !h.hovering,
            !h.converting,
            h.queue_index == 0,
    {
        ConversionHub {
            phase: HubPhase::Idle,
            files: Vec::new(),
            converted_md: None,
            selected: None,
            batch_target: None,
            pick_format: false,
            status: String::new(),
            is_error: false,
            hovering: false,
            converting: false,
            queue_index: 0,
        }
    }
}

/// Conversion output path settings.
pub struct ConversionSettings {
    /// false = SaveAs dialog (default), true = auto-save next to source.
    pub auto_save: bool,
    /// false = suffix (default), true = prefix.
    pub use_prefix: bool,
    /// Affix string added to the output filename. Default: "MDALL".
    pub affix: String,
}

impl Default for ConversionSettings {
    /// Save-as dialog, suffix mode, affix "MDALL".
    fn default() -> (s: Self)
        ensures
            !s.auto_save,
            !s.use_prefix,
            s.affix@ == "MDALL"@,
    {
        ConversionSettings { auto_save: false, use_prefix: false, affix: String::from_str("MDALL") }
    }
}

/// State of the equation editing popup.
pub struct EquationEditor {
    pub visible: bool,
    pub latex: String,
    /// Display equation: block index.  Inline equation: unused (0).
    pub index: usize,
    /// True when editing an inline $...$ or \(...\) equation.
    pub is_inline: bool,
    /// Inline only: byte range of the containing Paragraph block in source.
    pub inline_block_range: std::ops::Range<usize>,
    /// Inline only: original opening delimiter ("$" or "\\(").
    pub inline_delim_open: String,
    /// Inline only: original closing delimiter ("$" or "\\)").
    pub inline_delim_close: String,
    /// Inline only: original latex content before editing (used to evict old texture on Apply).
    pub inline_orig_latex: String,
    /// Inline only: index of the clicked run inside the paragraph's runs.
    pub inline_run_idx: usize,
}

/// Inline format state at the WYSIWYG cursor - updated every frame.
/// Used to highlight toolbar buttons and detect current formatting.
#[derive(Default, Clone, Copy)]
pub struct WysiwygFormatState {
    pub bold: bool,
    pub italic: bool,
    pub code: bool,
    pub strikethrough: bool,
    /// 0 = not inside a heading; 1-6 = heading level at cursor.
    pub heading: u8,
}

/// The link / image insertion dialog.
pub struct LinkDialog {
    pub visible: bool,
    pub text: String,
    pub url: String,
    pub is_image: bool,
}

/// Comment-authoring dialog: create a Review comment anchored to selected text.
pub struct CommentDialog {
    pub visible: bool,
    /// The selected passage the comment refers to (shown read-only as the anchor).
    pub anchor: String,
    /// The comment body being typed.
    pub body: String,
}

/// The "Export As" dialog.
pub struct ExportDialog {
    pub visible: bool,
}

/// Horizontal placement of a standalone image.
#[derive(PartialEq, Eq, Structural, Clone, Copy, Debug)]
pub enum ImgAlign {
    Left,
    Center,
    Right,
}

/// Properties popup for editing a standalone image (alt / url / width / align).
/// `replace` is the source byte range of the image block to overwrite on Apply.
pub struct ImageDialog {
    pub visible: bool,
    pub alt: String,
    pub url: String,
    /// Width in px as typed; empty = auto (no width attribute).
    pub width: String,
    pub align: ImgAlign,
    pub replace: std::ops::Range<usize>,
}

/// Editor rendering mode, switchable in the Options panel.
/// Default is the continuous segmented flow; Block is the legacy click-to-edit model.
#[derive(PartialEq, Eq, Structural, Clone, Copy, Debug)]
pub enum EditorMode {
    /// Default: continuous segmented flow (text runs + inline rendered equations).
    SegmentedFlow,
    /// Block model: click a block to open an inline source editor.
    Block,
}

impl Default for EditorMode {
    /// The segmented flow.
    fn default() -> (m: Self)
        ensures
            m == EditorMode::SegmentedFlow,
    {
        EditorMode::SegmentedFlow
    }
}

/// Severity of a transient toast notification.
#[derive(PartialEq, Eq, Structural, Clone, Copy, Debug)]
pub enum ToastKind {
    Success,
    Error,
    Info,
}

/// Which panels the main window shows.
#[derive(PartialEq, Eq, Structural, Clone, Copy, Debug)]
pub enum ViewMode {
    /// The Conversion Hub home screen.
    Converter,
    /// Markdown source only.
    Source,
    /// Source and rendered view side by side.
    Split,
    /// Rendered (WYSIWYG) editor only.
    Editor,
}

} // verus!
