use rdp_remote::client_clipboard::{text_from_wide, wide_text_len, wide_with_nul};
use rdp_remote::client_clipboard::{
    ClipboardContent, ClipboardError, ClipboardReader, ClipboardWriter, ReadTool, ToolReport, ToolRun,
    WriteStep, WriteTool,
};

#[test]
fn test_clipboard_reader_new() {
    let reader = ClipboardReader::new();
    assert!(reader.is_ok());
}

#[test]
fn test_clipboard_writer_new() {
    let writer = ClipboardWriter::new();
    assert!(writer.is_ok());
}

#[test]
fn test_clipboard_content_from_string() {
    let content = ClipboardContent::from("Hello World");
    match content {
        ClipboardContent::Text(text) => {
            assert_eq!(text, "Hello World");
        }
    }
}

fn report(outcome: ToolRun, text: &str) -> ToolReport {
    ToolReport { outcome, text: text.to_string() }
}

#[test]
fn read_takes_first_success() {
    let reader = ClipboardReader::new().unwrap();
    assert_eq!(reader.first_tool(), ReadTool::WlPaste);
    assert_eq!(reader.next_tool(ReadTool::WlPaste), Some(ReadTool::Xclip));
    assert_eq!(reader.next_tool(ReadTool::Xsel), None);
    let reports = [report(ToolRun::Errored, ""), report(ToolRun::Succeeded, "from xclip"), report(ToolRun::Succeeded, "from xsel")];
    match reader.read_text(&reports) {
        Ok(Some(t)) => assert_eq!(t, "from xclip"),
        _ => panic!("expected the xclip output"),
    }
    let reports = [report(ToolRun::Failed, "a"), report(ToolRun::Failed, "b"), report(ToolRun::Failed, "c")];
    assert!(matches!(reader.read_text(&reports), Ok(None)));
    // Only three tools exist: a fourth report is not looked at.
    let reports = [
        report(ToolRun::Failed, ""),
        report(ToolRun::Failed, ""),
        report(ToolRun::Failed, ""),
        report(ToolRun::Succeeded, "extra"),
    ];
    assert!(matches!(reader.read_text(&reports), Ok(None)));
}

#[test]
fn write_follows_tool_order() {
    let writer = ClipboardWriter::new().unwrap();
    assert_eq!(writer.first_tool(), WriteTool::WlCopy);
    assert_eq!(writer.next_step(WriteTool::WlCopy, ToolRun::Errored), WriteStep::Try(WriteTool::Xclip));
    assert_eq!(writer.next_step(WriteTool::Xclip, ToolRun::Errored), WriteStep::ToolError);
    assert_eq!(writer.next_step(WriteTool::Xsel, ToolRun::Failed), WriteStep::GiveUp);

    assert!(writer.write_text(&[report(ToolRun::Succeeded, "")]).is_ok());
    assert!(writer.write_text(&[report(ToolRun::Failed, ""), report(ToolRun::Succeeded, "")]).is_ok());
    match writer.write_text(&[report(ToolRun::Failed, ""), report(ToolRun::Errored, "no xclip")]) {
        Err(ClipboardError::Tool(t)) => assert_eq!(t, "no xclip"),
        _ => panic!("expected the xclip error"),
    }
    match writer.write_text(&[report(ToolRun::Failed, ""), report(ToolRun::Failed, ""), report(ToolRun::Failed, "")]) {
        Err(ClipboardError::AllToolsFailed) => {}
        _ => panic!("expected AllToolsFailed"),
    }
    match writer.write_text(&[]) {
        Err(ClipboardError::AllToolsFailed) => {}
        _ => panic!("expected AllToolsFailed"),
    }
}

#[test]
fn wide_clipboard_text_round_trips() {
    let units = wide_with_nul("héllo 😀");
    assert_eq!(units.last(), Some(&0));
    assert_eq!(units.len(), "héllo 😀".encode_utf16().count() + 1);
    assert_eq!(text_from_wide(&units), "héllo 😀");
    // Units after the first NUL are not read.
    assert_eq!(wide_text_len(&[0x41, 0, 0x42]), 1);
    assert_eq!(text_from_wide(&[0x41, 0, 0x42]), "A");
    // No NUL: every unit is read; an unpaired surrogate is replaced.
    assert_eq!(text_from_wide(&[0x41, 0xD800]), "A\u{FFFD}");
}
