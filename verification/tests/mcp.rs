use mdall::mcp::{
    converted_message, export_md_settings, exported_message, handle, handle_call, list_formats,
    plan_tool_call, tool_defs, tool_reply, CallParams, Dispatch, Reply, ToolInvocation,
};

fn params(name: &str, args: &[(&str, &str)]) -> CallParams {
    CallParams {
        name: Some(name.to_string()),
        args: args.iter().map(|(k, v)| (k.to_string(), Some(v.to_string()))).collect(),
    }
}

fn empty_params() -> CallParams {
    CallParams { name: None, args: vec![] }
}

fn exts(v: &[&str]) -> Vec<String> {
    v.iter().map(|s| s.to_string()).collect()
}

#[test]
fn initialize_and_tools_list() {
    let init = handle("initialize", Some(empty_params()), Some(1)).unwrap();
    match init {
        Dispatch::Reply(Reply::Initialize { id, protocol_version, server_name }) => {
            assert_eq!(id, 1);
            assert_eq!(protocol_version, "2024-11-05");
            assert_eq!(server_name, "mdall-mcp");
        }
        _ => panic!("initialize must be answered with the server info"),
    }
    let list = handle("tools/list", None, Some(2)).unwrap();
    match list {
        Dispatch::Reply(Reply::ToolList { id, tools }) => {
            assert_eq!(id, 2);
            assert_eq!(tools.len(), 5);
        }
        _ => panic!("tools/list must be answered with the tools"),
    }
}

#[test]
fn initialized_notification_gets_no_reply() {
    assert!(handle::<i64>("notifications/initialized", None, None).is_none());
}

#[test]
fn unknown_tool_is_an_error_result_not_a_crash() {
    let r = handle_call(Some(params("nope", &[])), 9);
    match r {
        Dispatch::Reply(Reply::ToolResult { id, text, is_error }) => {
            assert_eq!(id, 9);
            assert!(is_error);
            assert_eq!(text, "unknown tool 'nope'");
        }
        _ => panic!("an unknown tool must give an error result"),
    }
}

#[test]
fn list_formats_reports_import_and_export() {
    let t = list_formats(&exts(&["md", "docx", "html"]), &exts(&["pdf", "docx", "html", "typ"]));
    assert!(t.contains("Import formats"));
    assert!(t.contains("Export formats"));
    assert!(t.contains("docx") && t.contains("pdf"));
}

#[test]
fn list_formats_counts_and_joins_extensions() {
    let t = list_formats(&exts(&["md", "docx"]), &exts(&["pdf"]));
    assert_eq!(t, "Import formats (2):\n  md docx\n\nExport formats (1):\n  pdf");
    let empty = list_formats(&exts(&[]), &exts(&[]));
    assert_eq!(empty, "Import formats (0):\n  \n\nExport formats (0):\n  ");
}

#[test]
fn cancelled_notification_gets_no_reply() {
    assert!(handle::<i64>("notifications/cancelled", None, None).is_none());
    assert!(handle("notifications/cancelled", None, Some(4)).is_none());
}

#[test]
fn requests_without_id_get_no_reply() {
    assert!(handle::<i64>("initialize", None, None).is_none());
    assert!(handle::<i64>("ping", None, None).is_none());
    assert!(handle::<i64>("tools/list", None, None).is_none());
    assert!(handle::<i64>("tools/call", Some(params("list_formats", &[])), None).is_none());
    assert!(handle::<i64>("bogus", None, None).is_none());
}

#[test]
fn ping_gets_an_empty_result() {
    match handle("ping", None, Some(3)).unwrap() {
        Dispatch::Reply(Reply::Pong { id }) => assert_eq!(id, 3),
        _ => panic!("ping must be answered"),
    }
}

#[test]
fn unknown_method_is_method_not_found() {
    match handle("resources/list", None, Some(5)).unwrap() {
        Dispatch::Reply(Reply::Error { id, code, message }) => {
            assert_eq!(id, 5);
            assert_eq!(code, -32601);
            assert_eq!(message, "method not found");
        }
        _ => panic!("an unknown method must be an error"),
    }
}

#[test]
fn tools_call_without_params_is_invalid_params() {
    match handle("tools/call", None, Some(6)).unwrap() {
        Dispatch::Reply(Reply::Error { id, code, message }) => {
            assert_eq!(id, 6);
            assert_eq!(code, -32602);
            assert_eq!(message, "missing params");
        }
        _ => panic!("tools/call without params must be an error"),
    }
}

#[test]
fn tools_call_is_dispatched_to_the_tool() {
    match handle("tools/call", Some(params("list_formats", &[])), Some(7)).unwrap() {
        Dispatch::RunTool { id, call } => {
            assert_eq!(id, 7);
            assert!(matches!(call, ToolInvocation::ListFormats));
        }
        _ => panic!("list_formats must run"),
    }
}

#[test]
fn convert_file_takes_input_and_output() {
    let c = plan_tool_call(&params("convert_file", &[("input", "/a.md"), ("output", "/b.docx")]));
    match c {
        Ok(ToolInvocation::ConvertFile { input, output }) => {
            assert_eq!(input, "/a.md");
            assert_eq!(output, "/b.docx");
        }
        _ => panic!("convert_file must be planned"),
    }
}

#[test]
fn missing_argument_is_reported_by_name() {
    let c = plan_tool_call(&params("convert_file", &[("input", "/a.md")]));
    match c {
        Err(m) => assert_eq!(m, "missing or non-string argument 'output'"),
        _ => panic!("a missing argument must be an error"),
    }
    let c = plan_tool_call(&params("recover_source", &[]));
    match c {
        Err(m) => assert_eq!(m, "missing or non-string argument 'input'"),
        _ => panic!("a missing argument must be an error"),
    }
}

#[test]
fn non_string_argument_counts_as_missing() {
    let p = CallParams {
        name: Some("import_to_md".to_string()),
        args: vec![("input".to_string(), None)],
    };
    match plan_tool_call(&p) {
        Err(m) => assert_eq!(m, "missing or non-string argument 'input'"),
        _ => panic!("a non-string argument must be an error"),
    }
}

#[test]
fn export_md_keeps_optional_metadata() {
    let c = plan_tool_call(&params(
        "export_md",
        &[("markdown", "# T"), ("output", "/o.pdf"), ("title", "Thesis")],
    ));
    match c {
        Ok(ToolInvocation::ExportMd { markdown, output, title, author, base_dir }) => {
            assert_eq!(markdown, "# T");
            assert_eq!(output, "/o.pdf");
            assert_eq!(title, Some("Thesis".to_string()));
            assert_eq!(author, None);
            assert_eq!(base_dir, None);
        }
        _ => panic!("export_md must be planned"),
    }
}

#[test]
fn import_and_recover_take_their_input() {
    match plan_tool_call(&params("import_to_md", &[("input", "/x.docx")])) {
        Ok(ToolInvocation::ImportToMd { input }) => assert_eq!(input, "/x.docx"),
        _ => panic!("import_to_md must be planned"),
    }
    match plan_tool_call(&params("recover_source", &[("input", "/y.docx")])) {
        Ok(ToolInvocation::RecoverSource { input }) => assert_eq!(input, "/y.docx"),
        _ => panic!("recover_source must be planned"),
    }
}

#[test]
fn missing_tool_name_is_an_unknown_tool() {
    match plan_tool_call(&empty_params()) {
        Err(m) => assert_eq!(m, "unknown tool ''"),
        _ => panic!("a call without a name must be an error"),
    }
}

#[test]
fn tool_outcomes_become_tool_results() {
    match tool_reply(1, Ok("done".to_string())) {
        Reply::ToolResult { id, text, is_error } => {
            assert_eq!(id, 1);
            assert_eq!(text, "done");
            assert!(!is_error);
        }
        _ => panic!("a tool outcome is a tool result"),
    }
    match tool_reply(2, Err("bad".to_string())) {
        Reply::ToolResult { id, text, is_error } => {
            assert_eq!(id, 2);
            assert_eq!(text, "bad");
            assert!(is_error);
        }
        _ => panic!("a tool outcome is a tool result"),
    }
}

#[test]
fn tool_definitions_name_their_required_arguments() {
    let tools = tool_defs();
    let names: Vec<&str> = tools.iter().map(|t| t.name.as_str()).collect();
    assert_eq!(names, vec!["list_formats", "convert_file", "import_to_md", "export_md", "recover_source"]);
    assert!(tools[0].params.is_empty());
    assert_eq!(tools[1].required, vec!["input".to_string(), "output".to_string()]);
    assert_eq!(tools[3].params.len(), 5);
    assert_eq!(tools[3].required, vec!["markdown".to_string(), "output".to_string()]);
    assert_eq!(tools[4].required, vec!["input".to_string()]);
}

#[test]
fn success_messages_name_the_files() {
    assert_eq!(converted_message("/a.md", "/b.pdf"), "converted: /a.md -> /b.pdf");
    assert_eq!(exported_message("/o.docx"), "exported markdown -> /o.docx");
}

#[test]
fn export_md_settings_default_the_figure_folder_to_the_output_folder() {
    let call = plan_tool_call(&params(
        "export_md",
        &[("markdown", "# T"), ("output", "/out/o.pdf"), ("author", "Ann")],
    ))
    .unwrap();
    let st = export_md_settings(&call, Some("/out".to_string())).unwrap();
    assert_eq!(st.title, None);
    assert_eq!(st.author, Some("Ann".to_string()));
    assert_eq!(st.figure_dir, Some("/out".to_string()));
    let call = plan_tool_call(&params(
        "export_md",
        &[("markdown", "# T"), ("output", "/out/o.pdf"), ("base_dir", "/figs")],
    ))
    .unwrap();
    let st = export_md_settings(&call, Some("/out".to_string())).unwrap();
    assert_eq!(st.figure_dir, Some("/figs".to_string()));
    assert!(export_md_settings(&ToolInvocation::ListFormats, None).is_none());
}
