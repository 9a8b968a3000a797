use v_voice::paths::DataPath;
use v_voice::request::{local_url, Arg, Args, Form};

#[test]
fn arguments_keep_their_order() {
    let mut args = Args::new();
    args.text("-m");
    args.data(DataPath::of("models", "ggml-tiny.bin"));
    args.temp("audio.wav");
    assert_eq!(args.list.len(), 3);
    assert!(matches!(&args.list[0], Arg::Text(t) if t == "-m"));
    assert!(matches!(&args.list[1], Arg::Data(p) if p.parts == vec!["models", "ggml-tiny.bin"]));
    assert!(matches!(&args.list[2], Arg::Temp(t) if t == "audio.wav"));
}

#[test]
fn form_fields_keep_their_order() {
    let mut form = Form::new();
    form.text("a", "1");
    form.text("b", "2");
    assert_eq!(form.fields.len(), 2);
    assert_eq!(form.fields[0].name, "a");
    assert_eq!(form.fields[0].value, "1");
    assert_eq!(form.fields[1].name, "b");
    assert_eq!(form.fields[1].value, "2");
}

#[test]
fn local_addresses_name_the_port() {
    assert_eq!(local_url(8976, "/health"), "http://127.0.0.1:8976/health");
    assert_eq!(local_url(0, "/"), "http://127.0.0.1:0/");
    assert_eq!(local_url(65535, ""), "http://127.0.0.1:65535");
}
