use bluelady_tools::locator::{
    build_tool_components, dependency_status, invoke_ffmpeg_from_local, invoke_ytdlp_from_local,
    locate, probe_invocation, tool_path, verify_deps, DependencyStatus, NotFound, Tool,
    VerifyDeps,
};
use bluelady_tools::process::ProcessReport;
use std::path::PathBuf;

fn ran(success: bool) -> ProcessReport {
    ProcessReport::Exited { success, stdout: String::new(), stderr: "oops".to_string() }
}

fn absent() -> ProcessReport {
    ProcessReport::SpawnFailed { cause: "No such file".to_string() }
}

#[test]
fn tool_places() {
    assert_eq!(
        build_tool_components(Tool::Ffmpeg),
        vec!["Blue Lady's Tools", "ffmpeg/bin/ffmpeg.exe"]
    );
    assert_eq!(build_tool_components(Tool::Ytdlp), vec!["Blue Lady's Tools", "yt-dlp/yt-dlp.exe"]);
}

#[test]
fn tool_paths_are_joined_by_the_platform() {
    let expected: PathBuf =
        ["cfg", "Blue Lady's Tools", "ffmpeg/bin/ffmpeg.exe"].iter().collect();
    assert_eq!(tool_path("cfg", Tool::Ffmpeg), expected.to_str().unwrap());
    let expected: PathBuf = ["cfg", "Blue Lady's Tools", "yt-dlp/yt-dlp.exe"].iter().collect();
    assert_eq!(tool_path("cfg", Tool::Ytdlp), expected.to_str().unwrap());
}

#[test]
fn probes_ask_for_the_version() {
    let probe = probe_invocation("p/ffmpeg.exe", Tool::Ffmpeg);
    assert_eq!(probe.binary, "p/ffmpeg.exe");
    assert_eq!(probe.args, vec!["-version"]);
    let probe = probe_invocation("p/yt-dlp.exe", Tool::Ytdlp);
    assert_eq!(probe.binary, "p/yt-dlp.exe");
    assert_eq!(probe.args, vec!["--version"]);
}

#[test]
fn a_tool_is_found_when_its_probe_exits_with_zero() {
    assert_eq!(locate(Tool::Ffmpeg, "p".to_string(), &ran(true)), Ok("p".to_string()));
    assert_eq!(invoke_ffmpeg_from_local("p".to_string(), &ran(true)), Ok("p".to_string()));
    assert_eq!(invoke_ytdlp_from_local("q".to_string(), &ran(true)), Ok("q".to_string()));
}

#[test]
fn missing_and_broken_tools_look_the_same() {
    let broken = invoke_ffmpeg_from_local("p".to_string(), &ran(false));
    let missing = invoke_ffmpeg_from_local("p".to_string(), &absent());
    assert_eq!(broken, Err(NotFound { tool: Tool::Ffmpeg }));
    assert_eq!(broken, missing);
    assert_eq!(
        invoke_ytdlp_from_local("q".to_string(), &absent()),
        Err(NotFound { tool: Tool::Ytdlp })
    );
    assert_eq!(
        invoke_ytdlp_from_local("q".to_string(), &ran(false)),
        Err(NotFound { tool: Tool::Ytdlp })
    );
}

#[test]
fn both_tools_are_judged_on_every_call() {
    assert_eq!(verify_deps(&ran(true), &ran(true)), VerifyDeps { ffmpeg: true, ytdlp: true });
    assert_eq!(verify_deps(&ran(true), &absent()), VerifyDeps { ffmpeg: true, ytdlp: false });
    assert_eq!(verify_deps(&ran(false), &ran(true)), VerifyDeps { ffmpeg: false, ytdlp: true });
    assert_eq!(verify_deps(&absent(), &absent()), VerifyDeps { ffmpeg: false, ytdlp: false });
}

#[test]
fn dependency_status_of_a_probe() {
    assert_eq!(
        dependency_status(Tool::Ytdlp, "q".to_string(), &ran(true)),
        DependencyStatus { tool: Tool::Ytdlp, path: Some("q".to_string()), executable_verified: true }
    );
    assert_eq!(
        dependency_status(Tool::Ytdlp, "q".to_string(), &ran(false)),
        DependencyStatus { tool: Tool::Ytdlp, path: None, executable_verified: false }
    );
}
