use bluelady_tools::fetcher::{
    find_entry, find_extracted_ffmpeg_dir, Deps, DirEntry, DownloadDepsResponse, FetchAction,
    FetchStep, Fetcher, StepReport, Wanted, FFMPEG_URL, YTDLP_URL,
};
use std::collections::BTreeSet;

fn place(parts: &[&str]) -> Vec<String> {
    parts.iter().map(|p| p.to_string()).collect()
}

fn entry(name: &str, is_dir: bool) -> DirEntry {
    DirEntry { name: name.to_string(), is_dir }
}

fn done() -> StepReport {
    StepReport::Completed { listing: Vec::new() }
}

fn listed(entries: Vec<DirEntry>) -> StepReport {
    StepReport::Completed { listing: entries }
}

fn failed(cause: &str) -> StepReport {
    StepReport::Failed { cause: cause.to_string() }
}

fn success() -> FetchAction {
    FetchAction::Succeed {
        response: DownloadDepsResponse {
            ffmpeg: Deps { success: true, message: "FFMPEG downloaded successfully".to_string() },
            ytdlp: Deps { success: true, message: "YT-DLP downloaded successfully".to_string() },
        },
    }
}

#[test]
fn listings_are_searched_in_order() {
    let entries = vec![
        entry("readme.txt", false),
        entry("ffmpeg-notes", false),
        entry("bin", true),
        entry("ffmpeg-master-latest", true),
        entry("ffmpeg-old", true),
    ];
    assert_eq!(find_entry(&entries, Wanted::Directory), Some(2));
    assert_eq!(find_entry(&entries, Wanted::Leftover), Some(3));
    assert_eq!(find_extracted_ffmpeg_dir(&entries), Some(3));
    assert_eq!(find_extracted_ffmpeg_dir(&vec![entry("ffmpeg", true)]), None);
    assert_eq!(find_extracted_ffmpeg_dir(&vec![entry("ffmpeg-", true)]), Some(0));
    assert_eq!(find_extracted_ffmpeg_dir(&vec![entry("ffmpeg-x", false)]), None);
    assert_eq!(find_extracted_ffmpeg_dir(&Vec::new()), None);
    assert_eq!(find_entry(&Vec::new(), Wanted::Directory), None);
}

#[test]
fn a_run_names_its_steps_in_order() {
    let (mut fetcher, first) = Fetcher::start();
    assert_eq!(first, FetchAction::CreateDir { path: place(&["ffmpeg"]) });
    assert_eq!(fetcher.step(), FetchStep::CreateFfmpegDir);
    assert!(!fetcher.is_over());

    assert_eq!(
        fetcher.advance(done()),
        FetchAction::Download {
            url: FFMPEG_URL.to_string(),
            binary: false,
            path: place(&["ffmpeg.zip"]),
            timeout_secs: 600,
        }
    );
    assert_eq!(
        fetcher.advance(done()),
        FetchAction::Extract { archive: place(&["ffmpeg.zip"]), into: place(&["ffmpeg"]) }
    );
    assert_eq!(fetcher.advance(done()), FetchAction::List { path: place(&["ffmpeg"]) });
    assert_eq!(
        fetcher.advance(listed(vec![entry("notes.txt", false), entry("ffmpeg-win64", true)])),
        FetchAction::List { path: place(&["ffmpeg", "ffmpeg-win64"]) }
    );
    assert_eq!(
        fetcher.advance(listed(vec![entry("bin", true), entry("LICENSE.txt", false)])),
        FetchAction::Rename {
            from: place(&["ffmpeg", "ffmpeg-win64", "bin"]),
            to: place(&["ffmpeg", "bin"]),
        }
    );
    assert_eq!(fetcher.step(), FetchStep::MoveFiles);
    assert_eq!(
        fetcher.advance(done()),
        FetchAction::Rename {
            from: place(&["ffmpeg", "ffmpeg-win64", "LICENSE.txt"]),
            to: place(&["ffmpeg", "LICENSE.txt"]),
        }
    );
    assert_eq!(fetcher.advance(done()), FetchAction::CreateDir { path: place(&["yt-dlp"]) });
    assert_eq!(
        fetcher.advance(done()),
        FetchAction::Download {
            url: YTDLP_URL.to_string(),
            binary: true,
            path: place(&["yt-dlp", "yt-dlp.exe"]),
            timeout_secs: 600,
        }
    );
    assert_eq!(fetcher.advance(done()), FetchAction::RemoveFile { path: place(&["ffmpeg.zip"]) });
    assert_eq!(fetcher.advance(done()), FetchAction::List { path: place(&["ffmpeg"]) });
    assert_eq!(
        fetcher.advance(listed(vec![
            entry("bin", true),
            entry("ffmpeg-win64", true),
            entry("LICENSE.txt", false),
        ])),
        FetchAction::RemoveDir { path: place(&["ffmpeg", "ffmpeg-win64"]) }
    );
    assert_eq!(fetcher.advance(done()), success());
    assert_eq!(fetcher.step(), FetchStep::Done);
    assert!(fetcher.is_over());
    assert_eq!(fetcher.advance(done()), FetchAction::Stop);
    assert_eq!(fetcher.advance(failed("late")), FetchAction::Stop);
}

#[test]
fn an_empty_inner_directory_needs_no_moves() {
    let (mut fetcher, _) = Fetcher::start();
    fetcher.advance(done());
    fetcher.advance(done());
    fetcher.advance(done());
    fetcher.advance(listed(vec![entry("inner", true)]));
    assert_eq!(
        fetcher.advance(listed(Vec::new())),
        FetchAction::CreateDir { path: place(&["yt-dlp"]) }
    );
    fetcher.advance(done());
    fetcher.advance(done());
    fetcher.advance(done());
    // Nothing of the archive's naming is left: the run ends without a removal.
    assert_eq!(fetcher.advance(listed(vec![entry("inner", true)])), success());
}

#[test]
fn an_archive_without_a_directory_fails_the_run() {
    let (mut fetcher, _) = Fetcher::start();
    fetcher.advance(done());
    fetcher.advance(done());
    fetcher.advance(done());
    assert_eq!(
        fetcher.advance(listed(vec![entry("ffmpeg.exe", false)])),
        FetchAction::Fail {
            step: FetchStep::FindExtracted,
            cause: "Failed to find extracted directory".to_string(),
        }
    );
    assert_eq!(fetcher.step(), FetchStep::Failed);
    assert_eq!(fetcher.advance(done()), FetchAction::Stop);
}

#[test]
fn the_first_failure_ends_the_run_with_its_cause() {
    let steps = [
        FetchStep::CreateFfmpegDir,
        FetchStep::DownloadFfmpeg,
        FetchStep::ExtractFfmpeg,
        FetchStep::FindExtracted,
        FetchStep::ListExtracted,
        FetchStep::MoveFiles,
        FetchStep::CreateYtdlpDir,
        FetchStep::DownloadYtdlp,
        FetchStep::RemoveArchive,
        FetchStep::FindLeftover,
        FetchStep::RemoveLeftover,
    ];
    for (fail_at, step) in steps.iter().enumerate() {
        let (mut fetcher, _) = Fetcher::start();
        for _ in 0..fail_at {
            let report = match fetcher.step() {
                FetchStep::FindExtracted => listed(vec![entry("ffmpeg-x", true)]),
                FetchStep::ListExtracted => listed(vec![entry("bin", true)]),
                FetchStep::FindLeftover => listed(vec![entry("ffmpeg-x", true)]),
                _ => done(),
            };
            fetcher.advance(report);
        }
        assert_eq!(fetcher.step(), *step);
        assert_eq!(
            fetcher.advance(failed("disk full")),
            FetchAction::Fail { step: *step, cause: "disk full".to_string() }
        );
        assert!(fetcher.is_over());
        assert_eq!(fetcher.advance(done()), FetchAction::Stop);
    }
}

/// A directory tree held in memory: the set of directories and the set of
/// files, each a list of components below the application's directory.
struct Tree {
    dirs: BTreeSet<Vec<String>>,
    files: BTreeSet<Vec<String>>,
}

impl Tree {
    fn list(&self, dir: &[String]) -> Vec<DirEntry> {
        let mut entries = Vec::new();
        for (set, is_dir) in [(&self.dirs, true), (&self.files, false)] {
            for path in set {
                if path.len() == dir.len() + 1 && path.starts_with(dir) {
                    entries.push(DirEntry { name: path[dir.len()].clone(), is_dir });
                }
            }
        }
        entries
    }

    fn rename(&mut self, from: &[String], to: &[String]) {
        for set in [&mut self.dirs, &mut self.files] {
            let moved: Vec<Vec<String>> =
                set.iter().filter(|p| p.starts_with(from)).cloned().collect();
            for path in moved {
                set.remove(&path);
                let mut target = to.to_vec();
                target.extend_from_slice(&path[from.len()..]);
                set.insert(target);
            }
        }
    }

    fn remove_dir(&mut self, dir: &[String]) {
        for set in [&mut self.dirs, &mut self.files] {
            set.retain(|p| !p.starts_with(dir));
        }
    }
}

#[test]
fn a_run_leaves_the_tools_flattened_and_nothing_else() {
    let mut tree = Tree { dirs: BTreeSet::new(), files: BTreeSet::new() };
    let (mut fetcher, mut action) = Fetcher::start();
    let mut downloads = Vec::new();
    loop {
        let report = match action {
            FetchAction::CreateDir { path } => {
                tree.dirs.insert(path);
                done()
            }
            FetchAction::Download { url, binary, path, timeout_secs } => {
                assert_eq!(timeout_secs, 600);
                downloads.push((url, binary));
                tree.files.insert(path);
                done()
            }
            FetchAction::Extract { archive, into } => {
                assert!(tree.files.contains(&archive));
                let inner = [into, place(&["ffmpeg-master-latest-win64-gpl"])].concat();
                tree.dirs.insert(inner.clone());
                tree.dirs.insert([inner.clone(), place(&["bin"])].concat());
                tree.files.insert([inner.clone(), place(&["bin", "ffmpeg.exe"])].concat());
                tree.files.insert([inner.clone(), place(&["bin", "ffprobe.exe"])].concat());
                tree.files.insert([inner, place(&["LICENSE.txt"])].concat());
                done()
            }
            FetchAction::List { path } => listed(tree.list(&path)),
            FetchAction::Rename { from, to } => {
                tree.rename(&from, &to);
                done()
            }
            FetchAction::RemoveFile { path } => {
                assert!(tree.files.remove(&path));
                done()
            }
            FetchAction::RemoveDir { path } => {
                tree.remove_dir(&path);
                done()
            }
            FetchAction::Succeed { response } => {
                assert!(response.ffmpeg.success && response.ytdlp.success);
                break;
            }
            other => panic!("unexpected action {other:?}"),
        };
        action = fetcher.advance(report);
    }
    assert_eq!(
        downloads,
        vec![(FFMPEG_URL.to_string(), false), (YTDLP_URL.to_string(), true)]
    );
    // The executables are where the locator expects them.
    assert!(tree.files.contains(&place(&["ffmpeg", "bin", "ffmpeg.exe"])));
    assert!(tree.files.contains(&place(&["yt-dlp", "yt-dlp.exe"])));
    assert_eq!(tree.files.iter().filter(|p| p.last().unwrap() == "ffmpeg.exe").count(), 1);
    assert_eq!(tree.files.iter().filter(|p| p.last().unwrap() == "yt-dlp.exe").count(), 1);
    // No directory of the archive's naming remains, and the archive is gone.
    assert!(tree.dirs.iter().all(|p| !p.iter().any(|c| c.starts_with("ffmpeg-"))));
    assert!(tree.files.iter().all(|p| !p.iter().any(|c| c.starts_with("ffmpeg-"))));
    assert!(!tree.files.contains(&place(&["ffmpeg.zip"])));
    assert_eq!(
        tree.dirs.into_iter().collect::<Vec<_>>(),
        vec![place(&["ffmpeg"]), place(&["ffmpeg", "bin"]), place(&["yt-dlp"])]
    );
}
