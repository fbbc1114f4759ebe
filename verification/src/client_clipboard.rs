//! The client's access to the system clipboard. Reading and writing go
//! through platform tools; this module holds what is decided without them:
//! the content type and the order in which the tools are tried.

use vstd::prelude::*;

verus! {

broadcast use vstd::string::group_string_axioms;

/// Content of the clipboard.
#[derive(Debug, Clone)]
pub enum ClipboardContent {
    Text(String),
}

impl ClipboardContent {
    /// The text held.
    pub open spec fn text(self) -> Seq<char> {
        match self {
            ClipboardContent::Text(s) => s@,
        }
    }
}

impl From<&str> for ClipboardContent {
    fn from(s: &str) -> (c: Self)
        ensures
            c.text() == s@,
    {
        ClipboardContent::Text(s.to_string())
    }
}

impl vstd::std_specs::convert::FromSpecImpl<&str> for ClipboardContent {
    /// A `String` built from a `&str` is known by its characters only, so no
    /// single value is named as the result.
    open spec fn obeys_from_spec() -> bool {
        false
    }

    open spec fn from_spec(s: &str) -> Self {
        ClipboardContent::Text(arbitrary())
    }
}

impl From<String> for ClipboardContent {
    fn from(s: String) -> (c: Self)
        ensures
            c == ClipboardContent::Text(s),
    {
        ClipboardContent::Text(s)
    }
}

impl vstd::std_specs::convert::FromSpecImpl<String> for ClipboardContent {
    open spec fn obeys_from_spec() -> bool {
        true
    }

    open spec fn from_spec(s: String) -> Self {
        ClipboardContent::Text(s)
    }
}

/// Why the clipboard could not be read or written.
#[derive(Debug, Clone)]
pub enum ClipboardError {
    /// This platform has no clipboard access.
    Unsupported,
    /// A clipboard tool could not be started or talked to.
    Tool(String),
    /// Every clipboard tool was tried and none succeeded.
    AllToolsFailed,
}

/// A tool that reads the clipboard, in the order they are tried.
#[derive(Debug, Clone, Copy, PartialEq, Eq, Structural)]
pub enum ReadTool {
    /// `wl-paste --no-newline` (Wayland).
    WlPaste,
    /// `xclip -selection clipboard -o` (X11).
    Xclip,
    /// `xsel --clipboard --output` (X11).
    Xsel,
}

/// A tool that writes the clipboard, in the order they are tried.
#[derive(Debug, Clone, Copy, PartialEq, Eq, Structural)]
pub enum WriteTool {
    /// `wl-copy --type text/plain <text>` (Wayland).
    WlCopy,
    /// `xclip -selection clipboard -i`, fed on standard input (X11).
    Xclip,
    /// `xsel --clipboard --input`, fed on standard input (X11).
    Xsel,
}

/// How a run of a clipboard tool went.
#[derive(Debug, Clone, Copy, PartialEq, Eq, Structural)]
pub enum ToolRun {
    /// The tool ran and reported success.
    Succeeded,
    /// The tool ran and reported failure.
    Failed,
    /// The tool could not be started, fed or waited for.
    Errored,
}

/// What to do after a write tool has run.
#[derive(Debug, Clone, Copy, PartialEq, Eq, Structural)]
pub enum WriteStep {
    /// The text was written.
    Done,
    /// Try the next tool.
    Try(WriteTool),
    /// Give up with the tool's own error.
    ToolError,
    /// Give up: no tool succeeded.
    GiveUp,
}

/// The UTF-16 code units of a character: itself below U+10000, else a
/// surrogate pair.
pub open spec fn utf16_units_of(c: char) -> Seq<u16> {
    let v = c as u32;
    if v < 0x10000 {
        seq![v as u16]
    } else {
        seq![(0xD800 + (v - 0x10000) / 0x400) as u16, (0xDC00 + (v - 0x10000) % 0x400) as u16]
    }
}

/// The UTF-16 encoding of a text.
pub open spec fn utf16_of(s: Seq<char>) -> Seq<u16>
    decreases s.len(),
{
    if s.len() == 0 {
        Seq::empty()
    } else {
        utf16_of(s.drop_last()) + utf16_units_of(s.last())
    }
}

/// The text that `String::from_utf16_lossy` makes of `units`.
pub uninterp spec fn utf16_lossy(units: Seq<u16>) -> Seq<char>;

/// Calls `str::encode_utf16`: the text's UTF-16 code units, in order.
#[verifier::external_body]
fn encode_utf16(s: &str) -> (r: Vec<u16>)
    ensures
        r@ == utf16_of(s@),
{
    s.encode_utf16().collect()
}

/// Calls `String::from_utf16_lossy`: the text the units spell, with each
/// unpaired surrogate replaced. On a valid encoding it gives the text back.
#[verifier::external_body]
fn decode_utf16_lossy(units: &[u16]) -> (r: String)
    ensures
        r@ == utf16_lossy(units@),
        forall|t: Seq<char>| units@ == #[trigger] utf16_of(t) ==> r@ == t,
{
    String::from_utf16_lossy(units)
}

/// The clipboard text as the Windows clipboard takes it: UTF-16 code units
/// ending in a NUL unit.
pub fn wide_with_nul(content: &str) -> (units: Vec<u16>)
    ensures
        units@ == utf16_of(content@).push(0),
{
    let mut units = encode_utf16(content);
    units.push(0);
    units
}

/// The number of code units before the first NUL unit, or all of them when
/// there is none.
pub fn wide_text_len(units: &[u16]) -> (n: usize)
    ensures
        n <= units@.len(),
        forall|i: int| 0 <= i < n ==> #[trigger] units@[i] != 0,
        n < units@.len() ==> units@[n as int] == 0,
{
    let mut n: usize = 0;
    while n < units.len()
        invariant
            n <= units@.len(),
            forall|i: int| 0 <= i < n ==> #[trigger] units@[i] != 0,
        decreases units@.len() - n,
    {
        if units[n] == 0 {
            return n;
        }
        n = n + 1;
    }
    n
}

/// The text of a clipboard buffer of UTF-16 code units: the units before
/// the first NUL, decoded with each unpaired surrogate replaced.
pub fn text_from_wide(units: &[u16]) -> (s: String)
    ensures
        exists|n: int|
            0 <= n <= units@.len() && (forall|i: int| 0 <= i < n ==> #[trigger] units@[i] != 0) && (n
                < units@.len() ==> units@[n] == 0) && s@ == #[trigger] utf16_lossy(units@.take(n)),
{
    let n = wide_text_len(units);
    let text = units.split_at(n).0;
    assert(text@ == units@.take(n as int));
    decode_utf16_lossy(text)
}

proof fn lemma_utf16_has_no_nul(t: Seq<char>)
    requires
        forall|i: int| 0 <= i < t.len() ==> (#[trigger] t[i]) as u32 != 0,
    ensures
        forall|i: int| 0 <= i < utf16_of(t).len() ==> #[trigger] utf16_of(t)[i] != 0,
    decreases t.len(),
{
    if t.len() > 0 {
        let prefix = t.drop_last();
        assert forall|i: int| 0 <= i < prefix.len() implies (#[trigger] prefix[i]) as u32 != 0 by {
            assert(prefix[i] == t[i]);
        }
        lemma_utf16_has_no_nul(prefix);
        let c = t.last();
        assert(c == t[t.len() - 1]);
        let units = utf16_units_of(c);
        assert forall|i: int| 0 <= i < units.len() implies #[trigger] units[i] != 0 by {
            let v = c as u32;
            vstd::utf8::char_is_scalar(c);
            assert(t[t.len() - 1] as u32 != 0);
            if v >= 0x10000 {
                assert((v - 0x10000) / 0x400 < 0x400);
                assert((v - 0x10000) % 0x400 < 0x400);
            }
        }
        let all = utf16_of(t);
        assert forall|i: int| 0 <= i < all.len() implies #[trigger] all[i] != 0 by {
            if i < utf16_of(prefix).len() {
                assert(all[i] == utf16_of(prefix)[i]);
            } else {
                assert(all[i] == units[i - utf16_of(prefix).len()]);
            }
        }
    }
}

/// Law: the Windows clipboard gives back what was written. A text without
/// NUL characters, written as its UTF-16 units with a closing NUL, reads
/// back as the same text.
pub proof fn law_wide_text_round_trip(content: Seq<char>, read: Seq<char>, n: int)
    requires
        forall|i: int| 0 <= i < content.len() ==> (#[trigger] content[i]) as u32 != 0,
        0 <= n <= utf16_of(content).push(0).len(),
        forall|i: int| 0 <= i < n ==> #[trigger] utf16_of(content).push(0)[i] != 0,
        n < utf16_of(content).push(0).len() ==> utf16_of(content).push(0)[n] == 0,
        forall|t: Seq<char>| utf16_of(content).push(0).take(n) == #[trigger] utf16_of(t) ==> read == t,
    ensures
        read == content,
{
    let units = utf16_of(content);
    lemma_utf16_has_no_nul(content);
    let all = units.push(0);
    if n < units.len() {
        assert(all[n] == units[n]);
    }
    if n == all.len() {
        assert(all[units.len() as int] == 0);
    }
    assert(n == units.len());
    assert(all.take(n) =~= units);
}

/// Number of tools tried to read or to write the clipboard.
pub const CLIPBOARD_TOOLS: usize = 3;

/// A run of a clipboard tool as the caller saw it: how it went, and the
/// text it printed (for a read) or the error it met (for a write that could
/// not start or feed the tool).
#[derive(Debug, Clone)]
pub struct ToolReport {
    pub outcome: ToolRun,
    pub text: String,
}

/// The text read when the read tools ran as `reports` tell, in order: the
/// output of the first of them that succeeded, or nothing. A tool with no
/// report counts as not having succeeded.
pub open spec fn read_outcome(reports: Seq<ToolReport>) -> Option<Seq<char>>
    decreases reports.len(),
{
    if reports.len() == 0 {
        None
    } else if reports[0].outcome is Succeeded {
        Some(reports[0].text@)
    } else {
        read_outcome(reports.drop_first())
    }
}

/// How writing ends when the write tools from `tool` on ran as `reports`
/// tell, in order: `Ok` once one succeeds, the error of an X11 tool that
/// could not be started or fed, and `AllToolsFailed` once none is left. A
/// tool with no report counts as having failed.
pub open spec fn write_outcome(tool: WriteTool, reports: Seq<ToolReport>) -> Result<(), ClipboardError>
    decreases reports.len(),
{
    if reports.len() == 0 {
        Err(ClipboardError::AllToolsFailed)
    } else {
        match write_step_after(tool, reports[0].outcome) {
            WriteStep::Done => Ok(()),
            WriteStep::ToolError => Err(ClipboardError::Tool(reports[0].text)),
            WriteStep::GiveUp => Err(ClipboardError::AllToolsFailed),
            WriteStep::Try(next) => write_outcome(next, reports.drop_first()),
        }
    }
}

/// The reports of the tools that are tried: at most `CLIPBOARD_TOOLS`.
pub open spec fn tried(reports: Seq<ToolReport>) -> Seq<ToolReport> {
    if reports.len() <= CLIPBOARD_TOOLS {
        reports
    } else {
        reports.take(CLIPBOARD_TOOLS as int)
    }
}

/// The read tool tried after `tool` failed, if any.
pub open spec fn read_tool_after(tool: ReadTool) -> Option<ReadTool> {
    match tool {
        ReadTool::WlPaste => Some(ReadTool::Xclip),
        ReadTool::Xclip => Some(ReadTool::Xsel),
        ReadTool::Xsel => None,
    }
}

/// What follows a run of a write tool. The Wayland tool is given its text
/// on the command line, so any trouble with it moves on to the next tool;
/// the X11 tools are fed through a pipe, and trouble starting or feeding
/// them ends the write with that error.
pub open spec fn write_step_after(tool: WriteTool, run: ToolRun) -> WriteStep {
    match run {
        ToolRun::Succeeded => WriteStep::Done,
        ToolRun::Errored => match tool {
            WriteTool::WlCopy => WriteStep::Try(WriteTool::Xclip),
            _ => WriteStep::ToolError,
        },
        ToolRun::Failed => match tool {
            WriteTool::WlCopy => WriteStep::Try(WriteTool::Xclip),
            WriteTool::Xclip => WriteStep::Try(WriteTool::Xsel),
            WriteTool::Xsel => WriteStep::GiveUp,
        },
    }
}

/// Reads text from the system clipboard.
pub struct ClipboardReader;

impl ClipboardReader {
    /// A reader; creating one always succeeds.
    pub fn new() -> (r: Result<Self, ClipboardError>)
        ensures
            r is Ok,
    {
        Ok(ClipboardReader)
    }

    /// The first tool to try.
    pub fn first_tool(&self) -> (t: ReadTool)
        ensures
            t == ReadTool::WlPaste,
    {
        ReadTool::WlPaste
    }

    /// The tool to try after `tool` did not succeed; `None` when all have
    /// been tried, and the clipboard then reads as empty.
    pub fn next_tool(&self, tool: ReadTool) -> (t: Option<ReadTool>)
        ensures
            t == read_tool_after(tool),
    {
        match tool {
            ReadTool::WlPaste => Some(ReadTool::Xclip),
            ReadTool::Xclip => Some(ReadTool::Xsel),
            ReadTool::Xsel => None,
        }
    }

    /// The text on the clipboard, given how the read tools ran, in the
    /// order they are tried: the output of the first that succeeded, or
    /// `None` when none did.
    pub fn read_text(&self, reports: &[ToolReport]) -> (r: Result<Option<String>, ClipboardError>)
        ensures
            r matches Ok(t) && (match t {
                Some(text) => read_outcome(tried(reports@)) == Some(text@),
                None => read_outcome(tried(reports@)) is None,
            }),
    {
        let n: usize = if reports.len() <= CLIPBOARD_TOOLS {
            reports.len()
        } else {
            CLIPBOARD_TOOLS
        };
        let ghost tried_reports = tried(reports@);
        assert(tried_reports.len() == n);
        assert(tried_reports.skip(0) =~= tried_reports);
        let mut i: usize = 0;
        while i < n
            invariant
                i <= n,
                n == tried_reports.len(),
                n <= reports@.len(),
                tried_reports == tried(reports@),
                forall|j: int| 0 <= j < n ==> #[trigger] tried_reports[j] == reports@[j],
                read_outcome(tried_reports) == read_outcome(tried_reports.skip(i as int)),
            decreases n - i,
        {
            assert(tried_reports.skip(i as int).drop_first() =~= tried_reports.skip(i + 1));
            if let ToolRun::Succeeded = reports[i].outcome {
                return Ok(Some(reports[i].text.clone()));
            }
            i = i + 1;
        }
        Ok(None)
    }
}

/// Writes text to the system clipboard.
pub struct ClipboardWriter;

impl ClipboardWriter {
    /// A writer; creating one always succeeds.
    pub fn new() -> (r: Result<Self, ClipboardError>)
        ensures
            r is Ok,
    {
        Ok(ClipboardWriter)
    }

    /// The first tool to try.
    pub fn first_tool(&self) -> (t: WriteTool)
        ensures
            t == WriteTool::WlCopy,
    {
        WriteTool::WlCopy
    }

    /// What to do after `tool` ran as `run` went.
    pub fn next_step(&self, tool: WriteTool, run: ToolRun) -> (s: WriteStep)
        ensures
            s == write_step_after(tool, run),
            run == ToolRun::Succeeded ==> s == WriteStep::Done,
            run == ToolRun::Failed && tool == WriteTool::WlCopy ==> s == WriteStep::Try(WriteTool::Xclip),
            run == ToolRun::Failed && tool == WriteTool::Xclip ==> s == WriteStep::Try(WriteTool::Xsel),
            run == ToolRun::Failed && tool == WriteTool::Xsel ==> s == WriteStep::GiveUp,
            run == ToolRun::Errored && tool == WriteTool::WlCopy ==> s == WriteStep::Try(WriteTool::Xclip),
            run == ToolRun::Errored && tool != WriteTool::WlCopy ==> s == WriteStep::ToolError,
    {
        match run {
            ToolRun::Succeeded => WriteStep::Done,
            ToolRun::Errored => match tool {
                WriteTool::WlCopy => WriteStep::Try(WriteTool::Xclip),
                _ => WriteStep::ToolError,
            },
            ToolRun::Failed => match tool {
                WriteTool::WlCopy => WriteStep::Try(WriteTool::Xclip),
                WriteTool::Xclip => WriteStep::Try(WriteTool::Xsel),
                WriteTool::Xsel => WriteStep::GiveUp,
            },
        }
    }

    /// How writing the clipboard ended, given how the write tools ran, in
    /// the order they are tried.
    pub fn write_text(&self, reports: &[ToolReport]) -> (r: Result<(), ClipboardError>)
        ensures
            r == write_outcome(WriteTool::WlCopy, reports@),
            forall|k: int|
                #![trigger reports@[k]]
                0 <= k < CLIPBOARD_TOOLS && k < reports@.len() && reports@[k].outcome == ToolRun::Succeeded && (
                forall|j: int| 0 <= j < k ==> #[trigger] reports@[j].outcome == ToolRun::Failed) ==> r == Ok::<
                    (),
                    ClipboardError,
                >(()),
    {
        let r = self.run_write_tools(reports);
        proof {
            assert forall|k: int|
                #![trigger reports@[k]]
                0 <= k < CLIPBOARD_TOOLS && k < reports@.len() && reports@[k].outcome == ToolRun::Succeeded && (
                forall|j: int| 0 <= j < k ==> #[trigger] reports@[j].outcome == ToolRun::Failed) implies write_outcome(
                WriteTool::WlCopy,
                reports@,
            ) == Ok::<(), ClipboardError>(()) by {
                law_write_tools_tried_in_order(reports@, k);
            }
        }
        r
    }

    /// How writing ended, following the tools in order through `reports`.
    fn run_write_tools(&self, reports: &[ToolReport]) -> (r: Result<(), ClipboardError>)
        ensures
            r == write_outcome(WriteTool::WlCopy, reports@),
    {
        let mut tool = WriteTool::WlCopy;
        assert(reports@.skip(0) =~= reports@);
        let mut i: usize = 0;
        while i < reports.len()
            invariant
                i <= reports@.len(),
                write_outcome(WriteTool::WlCopy, reports@) == write_outcome(tool, reports@.skip(i as int)),
            decreases reports@.len() - i,
        {
            assert(reports@.skip(i as int).drop_first() =~= reports@.skip(i + 1));
            assert(reports@.skip(i as int)[0] == reports@[i as int]);
            match self.next_step(tool, reports[i].outcome) {
                WriteStep::Done => {
                    return Ok(());
                },
                WriteStep::ToolError => {
                    return Err(ClipboardError::Tool(reports[i].text.clone()));
                },
                WriteStep::GiveUp => {
                    return Err(ClipboardError::AllToolsFailed);
                },
                WriteStep::Try(next) => {
                    tool = next;
                },
            }
            i = i + 1;
        }
        assert(reports@.skip(i as int).len() == 0);
        Err(ClipboardError::AllToolsFailed)
    }
}

impl Default for ClipboardReader {
    fn default() -> (r: Self)
        ensures
            r == ClipboardReader,
    {
        ClipboardReader
    }
}

impl Default for ClipboardWriter {
    fn default() -> (w: Self)
        ensures
            w == ClipboardWriter,
    {
        ClipboardWriter
    }
}

/// Law: every tool is tried at most once. Following the order from any
/// tool, the tools tried come strictly later each time, so reading ends
/// after at most three attempts.
pub proof fn law_read_tools_each_tried_once(tool: ReadTool)
    ensures
        read_tool_after(tool) != Some(tool),
        read_tool_after(tool) matches Some(t) ==> read_tool_after(t) != Some(tool),
        read_tool_after(tool) matches Some(t) ==> (read_tool_after(t) matches Some(u) ==> read_tool_after(u)
            is None),
{
}

/// Law: the write tools are tried in order until one succeeds. When the
/// first `k` of the three tools ran and failed and the next one succeeded,
/// the write succeeds: wl-copy, then xclip, then xsel each get their turn.
pub proof fn law_write_tools_tried_in_order(reports: Seq<ToolReport>, k: int)
    requires
        0 <= k < CLIPBOARD_TOOLS,
        k < reports.len(),
        reports[k].outcome == ToolRun::Succeeded,
        forall|j: int| 0 <= j < k ==> #[trigger] reports[j].outcome == ToolRun::Failed,
    ensures
        write_outcome(WriteTool::WlCopy, reports) == Ok::<(), ClipboardError>(()),
{
    let rest = reports.drop_first();
    if k == 0 {
    } else if k == 1 {
        assert(reports[0].outcome == ToolRun::Failed);
        assert(rest[0] == reports[1]);
        assert(write_outcome(WriteTool::Xclip, rest) == Ok::<(), ClipboardError>(()));
    } else {
        assert(reports[0].outcome == ToolRun::Failed);
        assert(reports[1].outcome == ToolRun::Failed);
        assert(rest[0] == reports[1]);
        let last = rest.drop_first();
        assert(last[0] == reports[2]);
        assert(write_outcome(WriteTool::Xsel, last) == Ok::<(), ClipboardError>(()));
        assert(write_outcome(WriteTool::Xclip, rest) == Ok::<(), ClipboardError>(()));
    }
}

/// Law: after a tool fails, the next one in the order is tried, and only
/// the last one's failure ends the write: wl-copy is followed by xclip,
/// xclip by xsel, and after xsel the writer gives up. A success ends the
/// write at once, whichever tool it was.
pub proof fn law_write_step_after_failure(tool: WriteTool)
    ensures
        write_step_after(WriteTool::WlCopy, ToolRun::Failed) == WriteStep::Try(WriteTool::Xclip),
        write_step_after(WriteTool::Xclip, ToolRun::Failed) == WriteStep::Try(WriteTool::Xsel),
        write_step_after(WriteTool::Xsel, ToolRun::Failed) == WriteStep::GiveUp,
        write_step_after(tool, ToolRun::Succeeded) == WriteStep::Done,
{
}

} // verus!
