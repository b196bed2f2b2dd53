use replmux_runtime_cli::kernelspec::{
    connection_info, expand_environment, kernelspec_not_found, load, prepare, search_directories,
    KernelSpec, KernelspecLookup,
};
use replmux_runtime_cli::jupyter::decode_key;

#[test]
fn prepares_kernelspec_connection_argument() {
    let spec = KernelSpec {
        argv: vec![
            "python3".to_owned(),
            "-m".to_owned(),
            "ipykernel_launcher".to_owned(),
            "-f".to_owned(),
            "{connection_file}".to_owned(),
        ],
        env: Vec::new(),
        display_name: "Python".to_owned(),
        language: "python".to_owned(),
    };
    let prepared = prepare(&spec, Some("/tmp/kernel.json"), &Vec::new()).unwrap();
    assert_eq!(prepared.program, "python3");
    assert_eq!(prepared.arguments.last().unwrap(), "/tmp/kernel.json");
}

fn spec(argv: &[&str]) -> KernelSpec {
    KernelSpec {
        argv: argv.iter().map(|a| a.to_string()).collect(),
        env: vec![("PATH_EXTRA".to_owned(), "${HOME}/bin".to_owned())],
        display_name: String::new(),
        language: String::new(),
    }
}

#[test]
fn prepare_refuses_bad_command_lines() {
    let vars = Vec::new();
    assert_eq!(
        prepare(&spec(&[]), Some("/tmp/k.json"), &vars).err(),
        Some("kernelspec argv cannot be empty".to_owned())
    );
    assert_eq!(
        prepare(&spec(&["kernel"]), None, &vars).err(),
        Some("connection file path is not valid UTF-8".to_owned())
    );
    assert_eq!(
        prepare(&spec(&["kernel", "-f", "x.json"]), Some("/tmp/k.json"), &vars).err(),
        Some("kernelspec argv must contain {connection_file}".to_owned())
    );
}

#[test]
fn prepare_expands_variables_in_arguments_and_environment() {
    let vars = vec![
        ("HOME".to_owned(), "/home/u".to_owned()),
        ("PY".to_owned(), "python3".to_owned()),
    ];
    let prepared = prepare(
        &spec(&["${PY}", "--file={connection_file}", "${HOME}/x ${HOME}"]),
        Some("/tmp/k.json"),
        &vars,
    )
    .unwrap();
    assert_eq!(prepared.program, "python3");
    assert_eq!(prepared.arguments, vec!["--file=/tmp/k.json", "/home/u/x /home/u"]);
    assert_eq!(
        prepared.environment,
        vec![("PATH_EXTRA".to_owned(), "/home/u/bin".to_owned())]
    );
    assert_eq!(expand_environment("${A}${A}$A", &vec![("A".to_owned(), "1".to_owned())]), "11$A");
}

#[test]
fn kernelspecs_are_looked_up_in_order() {
    match load("/opt/spec", Some(true), &Vec::new()) {
        KernelspecLookup::File(path) => assert_eq!(path, "/opt/spec/kernel.json"),
        other => panic!("unexpected lookup: {other:?}"),
    }
    match load("/opt/spec/kernel.json", Some(false), &Vec::new()) {
        KernelspecLookup::File(path) => assert_eq!(path, "/opt/spec/kernel.json"),
        other => panic!("unexpected lookup: {other:?}"),
    }
    let directories = search_directories(Some("/a::/b/"), Some("/data"), Some("/home/u"));
    assert_eq!(
        directories,
        vec![
            "/a/kernels",
            "kernels",
            "/b/kernels",
            "/data/jupyter/kernels",
            "/home/u/Library/Jupyter/kernels",
            "/home/u/.local/share/jupyter/kernels",
            "/Library/Jupyter/kernels",
            "/opt/homebrew/share/jupyter/kernels",
            "/usr/local/share/jupyter/kernels",
            "/usr/share/jupyter/kernels",
        ]
    );
    match load("python3", None, &directories[..1].to_vec()) {
        KernelspecLookup::Candidates(candidates) => {
            assert_eq!(candidates, vec!["/a/kernels/python3/kernel.json"])
        }
        other => panic!("unexpected lookup: {other:?}"),
    }
    assert_eq!(search_directories(None, None, None).len(), 4);
    assert_eq!(kernelspec_not_found("julia"), "Jupyter kernelspec not found: julia");
}

#[test]
fn writes_standard_connection_document() {
    let key_bytes: Vec<u8> = (0u8..32).map(|i| i.wrapping_mul(37)).collect();
    let connection = connection_info(&vec![5001, 5002, 5003, 5004, 5005], &key_bytes);
    assert!(connection.shell_port > 0);
    assert_eq!(connection.key.len(), 64);
    assert_eq!(connection.control_port, 5004);
    assert_eq!(connection.transport, "tcp");
    assert_eq!(connection.signature_scheme, "hmac-sha256");
    assert_eq!(decode_key(&connection.key).unwrap(), key_bytes);
}
