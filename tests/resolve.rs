use quick_launcher::{icon_or_none, is_packaged_target, start, step, Event, Handle, IconError, Request, Resolution};

#[test]
fn packaged_prefix_is_case_insensitive() {
    assert!(is_packaged_target("shell:AppsFolder\\Microsoft.WindowsCalculator_8wekyb3d8bbwe!App"));
    assert!(is_packaged_target("SHELL:APPSFOLDER\\x"));
    assert!(is_packaged_target("shell:appsfolder\\"));
}

#[test]
fn paths_are_not_packaged() {
    assert!(!is_packaged_target("C:\\Windows\\notepad.exe"));
    assert!(!is_packaged_target("shell:appsfolder"));
    assert!(!is_packaged_target(""));
    assert!(!is_packaged_target("shell:appsfolder/x"));
}

#[test]
fn start_picks_strategy() {
    let (s, r) = start("shell:AppsFolder\\a!b");
    assert_eq!(s, Resolution::AwaitFactory);
    assert!(matches!(r, Request::FactoryImage));
    let (s, r) = start("C:\\a.exe");
    assert_eq!(s, Resolution::AwaitFileIcon);
    assert!(matches!(r, Request::FileIcon));
}

/// Drives a resolution with scripted answers, keeping count of handles.
fn drive(target: &str, mut answers: Vec<Event>) -> (Result<String, IconError>, Vec<Handle>, Vec<Handle>, Vec<&'static str>) {
    let (mut state, mut request) = start(target);
    let mut acquired: Vec<Handle> = Vec::new();
    let mut released: Vec<Handle> = Vec::new();
    let mut asked: Vec<&'static str> = Vec::new();
    answers.reverse();
    loop {
        let event = match request {
            Request::Finish(r) => return (r, acquired, released, asked),
            Request::FactoryImage => {
                asked.push("factory");
                answers.pop().unwrap()
            }
            Request::FileIcon => {
                asked.push("file");
                answers.pop().unwrap()
            }
            Request::IconInfo(_) => {
                asked.push("info");
                answers.pop().unwrap()
            }
            Request::Convert(_) => {
                asked.push("convert");
                answers.pop().unwrap()
            }
        };
        match &event {
            Event::FactoryImage(Ok(b)) if *b != 0 => acquired.push(Handle::Bitmap(*b)),
            Event::FileIcon(h) if *h != 0 => acquired.push(Handle::Icon(*h)),
            Event::IconInfo(Ok((c, m))) => {
                if *c != 0 {
                    acquired.push(Handle::Bitmap(*c));
                }
                if *m != 0 {
                    acquired.push(Handle::Bitmap(*m));
                }
            }
            _ => {}
        }
        let s = step(state, event);
        released.extend(s.release);
        state = s.next;
        request = s.request;
    }
}

fn sorted(mut v: Vec<Handle>) -> Vec<Handle> {
    v.sort_by_key(|h| match h {
        Handle::Bitmap(x) => (0, *x),
        Handle::Icon(x) => (1, *x),
    });
    v
}

#[test]
fn factory_success_returns_its_icon() {
    let (r, acq, rel, asked) = drive(
        "shell:AppsFolder\\a!b",
        vec![Event::FactoryImage(Ok(7)), Event::Converted(Ok("data:x".to_string()))],
    );
    assert_eq!(r, Ok("data:x".to_string()));
    assert_eq!(asked, vec!["factory", "convert"]);
    assert_eq!(sorted(acq), sorted(rel));
}

#[test]
fn factory_failure_falls_back_to_file_icon() {
    let (r, acq, rel, asked) = drive(
        "shell:AppsFolder\\a!b",
        vec![
            Event::FactoryImage(Err("no item".to_string())),
            Event::FileIcon(5),
            Event::IconInfo(Ok((6, 8))),
            Event::Converted(Ok("data:y".to_string())),
        ],
    );
    assert_eq!(r, Ok("data:y".to_string()));
    assert_eq!(asked, vec!["factory", "file", "info", "convert"]);
    assert_eq!(sorted(acq), sorted(rel));
}

#[test]
fn conversion_failure_falls_back_and_releases_bitmap() {
    let (r, acq, rel, asked) = drive(
        "shell:appsfolder\\a!b",
        vec![
            Event::FactoryImage(Ok(3)),
            Event::Converted(Err(IconError::InvalidSize)),
            Event::FileIcon(0),
        ],
    );
    assert_eq!(r, Err(IconError::IconNotFound));
    assert_eq!(asked, vec!["factory", "convert", "file"]);
    assert_eq!(rel, vec![Handle::Bitmap(3)]);
    assert_eq!(sorted(acq), sorted(rel));
}

#[test]
fn missing_color_bitmap_releases_mask_and_icon() {
    let (r, acq, rel, _) = drive("C:\\a.exe", vec![Event::FileIcon(5), Event::IconInfo(Ok((0, 9)))]);
    assert_eq!(r, Err(IconError::NoColorBitmap));
    assert_eq!(rel, vec![Handle::Bitmap(9), Handle::Icon(5)]);
    assert_eq!(sorted(acq), sorted(rel));
}

#[test]
fn icon_info_failure_releases_icon() {
    let (r, acq, rel, _) = drive("C:\\a.exe", vec![Event::FileIcon(5), Event::IconInfo(Err("denied".to_string()))]);
    assert_eq!(r, Err(IconError::IconInfoFailed("denied".to_string())));
    assert_eq!(rel, vec![Handle::Icon(5)]);
    assert_eq!(sorted(acq), sorted(rel));
}

#[test]
fn failed_conversion_releases_color_mask_icon_in_order() {
    let (r, acq, rel, _) = drive(
        "C:\\a.exe",
        vec![Event::FileIcon(5), Event::IconInfo(Ok((6, 8))), Event::Converted(Err(IconError::ReadbackFailed))],
    );
    assert_eq!(r, Err(IconError::ReadbackFailed));
    assert_eq!(rel, vec![Handle::Bitmap(6), Handle::Bitmap(8), Handle::Icon(5)]);
    assert_eq!(sorted(acq), sorted(rel));
}

#[test]
fn no_file_icon_is_not_found() {
    let (r, acq, rel, _) = drive("C:\\missing", vec![Event::FileIcon(0)]);
    assert_eq!(r, Err(IconError::IconNotFound));
    assert!(acq.is_empty() && rel.is_empty());
}

#[test]
fn failures_become_no_icon() {
    assert_eq!(icon_or_none(Err(IconError::IconNotFound)), None);
    assert_eq!(icon_or_none(Ok("data:z".to_string())), Some("data:z".to_string()));
}
