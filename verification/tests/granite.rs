use v_voice::granite::{
    download_granite, granite_download_failed, granite_download_result, granite_health_url,
    granite_marks, granite_model_dir, granite_server_command, granite_server_script, is_granite_downloaded,
    is_granite_ready,
    start_granite_server, stop_granite_server, transcribe_granite, GraniteAction, GraniteEvent,
    GraniteStart, GraniteStartError, ScriptPlace, GRANITE_STARTUP_CHECKS,
};
use v_voice::paths::Inventory;
use v_voice::reply::ProgramOutput;
use v_voice::request::Arg;
use v_voice::settings::granite_path;

fn inventory(names: &[&str]) -> Inventory {
    let mut seen = Inventory::new();
    for name in names {
        seen.add(granite_path(name));
    }
    seen
}

fn shown(arg: &Arg) -> String {
    match arg {
        Arg::Text(text) => text.clone(),
        Arg::Data(path) => path.parts.join("/"),
        Arg::Temp(name) => format!("temp:{}", name),
    }
}

fn files(model: bool, script: bool, script_in_data_dir: bool) -> GraniteEvent {
    GraniteEvent::Files { model, script, script_in_data_dir, place: "\"here\"".to_string() }
}

fn go(start: &mut GraniteStart, event: GraniteEvent) -> (Option<String>, GraniteAction) {
    assert!(start.awaits(&event));
    let step = start.step(event);
    (step.log, step.action)
}

#[test]
fn granite_is_ready_with_weights_in_one_file_or_several() {
    assert_eq!(granite_model_dir().parts, vec!["models", "granite-speech"]);
    let cases: [(&[&str], bool); 4] = [
        (&["config.json", "model.safetensors"], true),
        (&["config.json", "model.safetensors.index.json"], true),
        (&["config.json"], false),
        (&["model.safetensors"], false),
    ];
    for (names, there) in cases {
        assert_eq!(is_granite_downloaded(&inventory(names)), there);
        assert_eq!(is_granite_ready(&inventory(names), true), there);
        assert!(!is_granite_ready(&inventory(names), false));
    }
}

#[test]
fn a_downloaded_granite_is_shown() {
    for weights in ["model.safetensors", "model.safetensors.index.json"] {
        let seen = inventory(&["config.json", weights]);
        assert!(is_granite_downloaded(&seen));
        assert!(v_voice::settings::is_granite_ready(&seen));
    }
}

#[test]
fn the_script_is_taken_from_the_nearest_place() {
    assert!(granite_server_script(true, &vec![true]) == ScriptPlace::BesideProgram);
    assert!(granite_server_script(false, &vec![false, true, true]) == ScriptPlace::Ancestor(1));
    assert!(granite_server_script(false, &vec![]) == ScriptPlace::DataDir);
    let far = vec![false, false, false, false, true];
    assert!(granite_server_script(false, &far) == ScriptPlace::Ancestor(4));
    let too_far = vec![false, false, false, false, false, true];
    assert!(granite_server_script(false, &too_far) == ScriptPlace::DataDir);
}

#[test]
fn granite_is_downloaded_by_the_hub_command() {
    assert!(download_granite(&inventory(&["config.json", "model.safetensors"])).is_none());
    let run = download_granite(&inventory(&["config.json"])).unwrap();
    assert_eq!(shown(&run.program), "huggingface-cli");
    assert_eq!(
        run.args.list.iter().map(shown).collect::<Vec<String>>(),
        vec![
            "download",
            "ibm-granite/granite-4.0-1b-speech",
            "--local-dir",
            "models/granite-speech",
        ]
    );
}

#[test]
fn a_granite_download_moves_the_bar() {
    let fetched = download_granite(&inventory(&[]));
    assert_eq!(granite_marks(&fetched), (vec![5, 10], 100));
    let there = download_granite(&inventory(&["config.json", "model.safetensors"]));
    assert_eq!(granite_marks(&there), (vec![], 100));
}

#[test]
fn a_failed_granite_download_is_explained() {
    let output = |success| ProgramOutput { success, stdout: vec![], stderr: b"off\xffline".to_vec() };
    assert_eq!(granite_download_result(&output(true)), Ok(()));
    assert_eq!(
        granite_download_result(&output(false)),
        Err("huggingface-cli download failed: off\u{fffd}line. Install with: pip install huggingface_hub"
            .to_string())
    );
    assert_eq!(
        granite_download_failed("not found"),
        "Failed to run huggingface-cli. Make sure it's installed (pip install huggingface_hub): not found"
    );
}

#[test]
fn the_granite_server_has_its_addresses() {
    assert_eq!(granite_health_url(8976), "http://127.0.0.1:8976/health");
    assert_eq!(stop_granite_server(8976), "http://127.0.0.1:8976/shutdown");
    let ready = inventory(&["config.json", "model.safetensors"]);
    let upload = transcribe_granite(&ready, 80, "fr").ok().unwrap();
    assert_eq!(upload.url, "http://127.0.0.1:80/transcribe");
    assert!(upload.authorization.is_none());
    assert_eq!(upload.form.fields.len(), 1);
    assert_eq!(upload.form.fields[0].name, "language");
    assert_eq!(upload.form.fields[0].value, "fr");
    assert!(transcribe_granite(&ready, 80, "auto").ok().unwrap().form.fields.is_empty());
    let error = transcribe_granite(&Inventory::new(), 80, "fr").err().unwrap();
    assert_eq!(error, "Granite model not downloaded yet");
}

#[test]
fn the_granite_server_is_run_by_python() {
    let run = granite_server_command("/x/granite_server.py", 8976);
    assert_eq!(shown(&run.program), "python");
    assert_eq!(
        run.args.list.iter().map(shown).collect::<Vec<String>>(),
        vec!["/x/granite_server.py", "--model-dir", "models/granite-speech", "--port", "8976"]
    );
}

#[test]
fn a_running_granite_server_is_not_started_again() {
    let mut start = start_granite_server();
    let (_, action) = go(&mut start, GraniteEvent::Running(true));
    assert!(matches!(action, GraniteAction::Done(Ok(()))));
    assert!(!start.awaits(&GraniteEvent::Running(true)));
}

#[test]
fn a_granite_server_needs_model_and_script() {
    let mut start = start_granite_server();
    assert!(matches!(
        go(&mut start, GraniteEvent::Running(false)).1,
        GraniteAction::FindFiles
    ));
    let (_, action) = go(&mut start, files(false, true, true));
    match action {
        GraniteAction::Done(Err(error)) => {
            assert_eq!(error.message(), "Granite model not downloaded yet")
        }
        _ => panic!("the start went on"),
    }
    let mut start = start_granite_server();
    go(&mut start, GraniteEvent::Running(false));
    match go(&mut start, files(true, false, false)).1 {
        GraniteAction::Done(Err(error)) => assert_eq!(
            error.message(),
            "Granite server script not found at \"here\". Please ensure granite_server.py is available."
        ),
        _ => panic!("the start went on"),
    }
    let mut start = start_granite_server();
    go(&mut start, GraniteEvent::Running(false));
    assert!(matches!(go(&mut start, files(true, false, true)).1, GraniteAction::Spawn));
}

#[test]
fn a_granite_server_that_cannot_be_spawned_is_explained() {
    let mut start = start_granite_server();
    go(&mut start, GraniteEvent::Running(false));
    go(&mut start, files(true, true, false));
    match go(&mut start, GraniteEvent::NotSpawned("no python".to_string())).1 {
        GraniteAction::Done(Err(error)) => assert_eq!(
            error.message(),
            "Failed to start Granite server: no python. Make sure Python is installed."
        ),
        _ => panic!("the start went on"),
    }
}

#[test]
fn a_granite_server_is_waited_for() {
    let mut start = start_granite_server();
    go(&mut start, GraniteEvent::Running(false));
    go(&mut start, files(true, true, false));
    assert!(matches!(go(&mut start, GraniteEvent::Spawned).1, GraniteAction::Rest));
    assert!(matches!(go(&mut start, GraniteEvent::Rested).1, GraniteAction::CheckHealth));
    assert!(matches!(go(&mut start, GraniteEvent::Running(false)).1, GraniteAction::Rest));
    assert!(!start.awaits(&GraniteEvent::Running(true)));
    go(&mut start, GraniteEvent::Rested);
    assert!(matches!(
        go(&mut start, GraniteEvent::Running(true)).1,
        GraniteAction::Done(Ok(()))
    ));
}

#[test]
fn a_granite_server_that_never_answers_is_given_up() {
    let mut start = start_granite_server();
    go(&mut start, GraniteEvent::Running(false));
    go(&mut start, files(true, true, false));
    go(&mut start, GraniteEvent::Spawned);
    let mut logs: Vec<String> = Vec::new();
    for check in 0..GRANITE_STARTUP_CHECKS {
        go(&mut start, GraniteEvent::Rested);
        let (log, action) = go(&mut start, GraniteEvent::Running(false));
        logs.extend(log);
        if check + 1 < GRANITE_STARTUP_CHECKS {
            assert!(matches!(action, GraniteAction::Rest));
        } else {
            match action {
                GraniteAction::Done(Err(error)) => {
                    assert!(matches!(error, GraniteStartError::NeverReady));
                    assert_eq!(
                        error.message(),
                        "Granite server failed to start within 120 seconds"
                    );
                }
                _ => panic!("the start went on"),
            }
        }
    }
    assert_eq!(logs.len(), 23);
    assert_eq!(logs[0], "[granite] Waiting for server... (5s)");
    assert_eq!(logs[22], "[granite] Waiting for server... (115s)");
}
