use simpleaf::plan::{clamp_threads, index_dir_name, manifest_file_name, reference_dir_name, reference_filename, BuildRequest, RunManifest};
use simpleaf::version::parse_reported_version;

fn request(dedup: bool, spliced: Option<&str>, unspliced: Option<&str>, sparse: bool, threads: u32) -> BuildRequest {
    BuildRequest {
        fasta: String::from("genome.fa"),
        gtf: String::from("genes.gtf"),
        rlen: 91,
        output: String::from("out"),
        spliced: spliced.map(String::from),
        unspliced: unspliced.map(String::from),
        dedup,
        sparse,
        threads,
    }
}

#[test]
fn reference_filename_for_rlen_91() {
    assert_eq!(reference_filename(91), "splici_fl86.fa");
}

#[test]
fn reference_filename_edges() {
    assert_eq!(reference_filename(5), "splici_fl0.fa");
    assert_eq!(reference_filename(150), "splici_fl145.fa");
    assert_eq!(reference_filename(u32::MAX), "splici_fl4294967290.fa");
}

#[test]
fn threads_are_clamped_to_parallelism() {
    assert_eq!(clamp_threads(64, Some(8)), 8);
    assert_eq!(clamp_threads(4, Some(8)), 4);
    assert_eq!(clamp_threads(8, Some(8)), 8);
    assert_eq!(clamp_threads(64, None), 64);
}

#[test]
fn index_args_use_clamped_threads() {
    let r = request(false, None, None, false, 64);
    let args = r.index_args("out/index", "out/ref/splici_fl86.fa", Some(8));
    assert_eq!(args, vec!["index", "-i", "out/index", "-t", "out/ref/splici_fl86.fa", "--threads", "8"]);
}

#[test]
fn index_args_with_sparse_flag() {
    let r = request(false, None, None, true, 16);
    let args = r.index_args("o/index", "o/ref/x.fa", None);
    assert_eq!(args, vec!["index", "-i", "o/index", "-t", "o/ref/x.fa", "--sparse", "--threads", "16"]);
}

#[test]
fn reference_args_dedup_then_spliced() {
    let r = request(true, Some("extra.fa"), None, false, 16);
    let args = r.reference_args("out/ref");
    assert_eq!(args, vec!["make-splici", "--dedup-seqs", "--extra-spliced", "extra.fa", "genome.fa", "genes.gtf", "91", "out/ref"]);
}

#[test]
fn reference_args_plain() {
    let r = request(false, None, None, false, 16);
    assert_eq!(r.reference_args("out/ref"), vec!["make-splici", "genome.fa", "genes.gtf", "91", "out/ref"]);
}

#[test]
fn reference_args_all_flags_in_order() {
    let r = request(true, Some("s.fa"), Some("u.fa"), false, 16);
    let args = r.reference_args("r");
    assert_eq!(
        args,
        vec!["make-splici", "--dedup-seqs", "--extra-spliced", "s.fa", "--extra-unspliced", "u.fa", "genome.fa", "genes.gtf", "91", "r"]
    );
}

#[test]
fn fixed_names() {
    assert_eq!(manifest_file_name(), "run_info.json");
    assert_eq!(reference_dir_name(), "ref");
    assert_eq!(index_dir_name(), "index");
}

#[test]
fn manifest_holds_what_was_supplied() {
    let versions = vec![
        parse_reported_version("salmon 1.9.0").unwrap(),
        parse_reported_version("alevin-fry 0.8.2").unwrap(),
        parse_reported_version("pyroe 0.9.0-rc.1").unwrap(),
    ];
    let r = request(true, Some("extra.fa"), None, true, 12);
    let m = RunManifest::for_build(r, &versions);
    assert_eq!(m.command, "index");
    let names: Vec<&str> = m.versions.iter().map(|t| t.name.as_str()).collect();
    let texts: Vec<&str> = m.versions.iter().map(|t| t.version.as_str()).collect();
    assert_eq!(names, vec!["salmon", "alevin-fry", "pyroe"]);
    assert_eq!(texts, vec!["1.9.0", "0.8.2", "0.9.0-rc.1"]);
    assert_eq!(m.request.fasta, "genome.fa");
    assert_eq!(m.request.spliced.as_deref(), Some("extra.fa"));
    assert_eq!(m.request.unspliced, None);
    assert!(m.request.dedup && m.request.sparse);
    assert_eq!(m.request.threads, 12);
    assert_eq!(m.request.rlen, 91);
}

fn opt_value(o: &Option<String>) -> serde_json::Value {
    match o {
        Some(s) => serde_json::Value::String(s.clone()),
        None => serde_json::Value::Null,
    }
}

#[test]
fn manifest_round_trips_through_json() {
    let versions = vec![
        parse_reported_version("salmon 1.9.0").unwrap(),
        parse_reported_version("alevin-fry 0.8.2").unwrap(),
        parse_reported_version("pyroe 0.9.0").unwrap(),
    ];
    let m = RunManifest::for_build(request(false, None, Some("u.fa"), false, 16), &versions);
    let mut tools = serde_json::Map::new();
    for t in &m.versions {
        tools.insert(t.name.clone(), serde_json::Value::String(t.version.clone()));
    }
    let mut args = serde_json::Map::new();
    args.insert(String::from("fasta"), serde_json::Value::String(m.request.fasta.clone()));
    args.insert(String::from("rlen"), serde_json::Value::from(m.request.rlen));
    args.insert(String::from("spliced"), opt_value(&m.request.spliced));
    args.insert(String::from("unspliced"), opt_value(&m.request.unspliced));
    args.insert(String::from("threads"), serde_json::Value::from(m.request.threads));
    let mut root = serde_json::Map::new();
    root.insert(String::from("command"), serde_json::Value::String(m.command.clone()));
    root.insert(String::from("version_info"), serde_json::Value::Object(tools));
    root.insert(String::from("args"), serde_json::Value::Object(args));
    let text = serde_json::to_string_pretty(&serde_json::Value::Object(root)).unwrap();

    let back: serde_json::Value = serde_json::from_str(&text).unwrap();
    assert_eq!(back["command"].as_str(), Some("index"));
    assert_eq!(back["version_info"]["salmon"].as_str(), Some("1.9.0"));
    assert_eq!(back["version_info"]["alevin-fry"].as_str(), Some("0.8.2"));
    assert_eq!(back["version_info"]["pyroe"].as_str(), Some("0.9.0"));
    assert_eq!(back["args"]["fasta"].as_str(), Some("genome.fa"));
    assert_eq!(back["args"]["rlen"].as_u64(), Some(91));
    assert!(back["args"]["spliced"].is_null());
    assert_eq!(back["args"]["unspliced"].as_str(), Some("u.fa"));
    assert_eq!(back["args"]["threads"].as_u64(), Some(16));
}
