use experiment::process::{Process, ProcessPipeline};
use std::io::{Read, Write};

fn proc(program: &str, args: &[&str]) -> Process {
    let owned: Vec<String> = args.iter().map(|a| a.to_string()).collect();
    Process::new(program, owned)
}

#[test]
fn pipe_endpoints_yields_one_link_per_adjacent_pair() {
    let pl = ProcessPipeline::new(vec![
        proc("echo", &["a"]),
        proc("cat", &[]),
        proc("cat", &[]),
    ]);
    let links = pl.pipe_endpoints().expect("Failed opening a pipe");
    assert_eq!(links.len(), 2);
    assert_eq!(links[0].source, 0);
    assert_eq!(links[0].target, 1);
    assert_eq!(links[1].source, 1);
    assert_eq!(links[1].target, 2);
}

#[test]
fn pipe_endpoints_two_stages_yield_one_link() {
    let pl = ProcessPipeline::new(vec![
        proc("echo", &["-e", "a\\nb\\nc"]),
        proc("grep", &["b"]),
    ]);
    let links = pl.pipe_endpoints().expect("Failed opening a pipe");
    assert_eq!(links.len(), 1);
    assert_eq!(links[0].source, 0);
    assert_eq!(links[0].target, 1);
}

#[test]
fn pipe_endpoints_links_are_connected_pipes() {
    let pl = ProcessPipeline::new(vec![
        proc("echo", &["a"]),
        proc("cat", &[]),
        proc("cat", &[]),
    ]);
    let links = pl.pipe_endpoints().expect("Failed opening a pipe");
    for link in links {
        let mut writer = link.writer;
        let mut reader = link.reader;
        writer.write_all(b"hi").expect("write failed");
        drop(writer);
        let mut buf = String::new();
        reader.read_to_string(&mut buf).expect("read failed");
        assert_eq!(buf, "hi");
    }
}
