use vstd::multiset::Multiset;
use vstd::prelude::*;
use vstd::string::StringSliceAdditionalSpecFns;

use crate::pixels::IconError;

verus! {

broadcast use vstd::multiset::group_multiset_axioms, vstd::seq_lib::group_to_multiset_ensures;

/// The prefix, compared without regard to ASCII case, that marks a packaged
/// application identifier.
pub open spec fn packaged_prefix() -> Seq<u8> {
    // "shell:appsfolder\\" in ASCII
    seq![115u8, 104u8, 101u8, 108u8, 108u8, 58u8, 97u8, 112u8, 112u8, 115u8, 102u8, 111u8, 108u8, 100u8, 101u8, 114u8, 92u8]
}

pub open spec fn ascii_lower(b: u8) -> u8 {
    if 65 <= b && b <= 90 {
        (b + 32) as u8
    } else {
        b
    }
}

/// Whether the UTF-8 text `bytes` starts with the packaged-application prefix.
pub open spec fn is_packaged(bytes: Seq<u8>) -> bool {
    &&& bytes.len() >= packaged_prefix().len()
    &&& forall|i: int| 0 <= i < packaged_prefix().len() ==> ascii_lower(#[trigger] bytes[i]) == packaged_prefix()[i]
}

/// Whether `target` names a packaged application rather than a path.
pub fn is_packaged_target(target: &str) -> (r: bool)
    ensures
        r == is_packaged(target.spec_bytes()),
{
    let bytes = target.as_bytes();
    let prefix: [u8; 17] = [115u8, 104u8, 101u8, 108u8, 108u8, 58u8, 97u8, 112u8, 112u8, 115u8, 102u8, 111u8, 108u8, 100u8, 101u8, 114u8, 92u8];
    assert(prefix@ == packaged_prefix());
    if bytes.len() < 17 {
        return false;
    }
    let mut i: usize = 0;
    while i < 17
        invariant
            bytes@ == target.spec_bytes(),
            bytes@.len() >= 17,
            prefix@ == packaged_prefix(),
            i <= 17,
            forall|k: int| 0 <= k < i ==> ascii_lower(#[trigger] bytes@[k]) == packaged_prefix()[k],
        decreases 17 - i,
    {
        let b = bytes[i];
        let lower = if 65 <= b && b <= 90 { b + 32 } else { b };
        if lower != prefix[i] {
            return false;
        }
        i = i + 1;
    }
    true
}

/// A native handle that a resolution owns until it asks for its release.
#[derive(Debug, Clone, Copy, PartialEq, Eq, Structural)]
pub enum Handle {
    Bitmap(u64),
    Icon(u64),
}

/// Where a resolution stands. Handle values of zero stand for null.
#[derive(Debug, Clone, Copy, PartialEq, Eq, Structural)]
pub enum Resolution {
    /// Waiting for the shell image factory's bitmap.
    AwaitFactory,
    /// Waiting for the conversion of the factory's bitmap.
    AwaitFactoryConvert { bitmap: u64 },
    /// Waiting for the file-info icon lookup.
    AwaitFileIcon,
    /// Waiting for the decomposition of the icon.
    AwaitIconInfo { icon: u64 },
    /// Waiting for the conversion of the icon's color bitmap.
    AwaitConvert { color: u64, mask: u64, icon: u64 },
    /// Finished.
    Done,
}

/// What the host reports after performing a request.
pub enum Event {
    /// The image factory's bitmap, or why there is none.
    FactoryImage(Result<u64, String>),
    /// The payload made from a bitmap, or why there is none.
    Converted(Result<String, IconError>),
    /// The icon handle that the file-info lookup produced; zero when none.
    FileIcon(u64),
    /// The color and mask bitmaps of the icon, or why they could not be had.
    IconInfo(Result<(u64, u64), String>),
}

/// What the host is to do next.
pub enum Request {
    /// Ask the shell image factory for a 64x64 icon-only image of the target.
    FactoryImage,
    /// Convert the bitmap into an encoded icon.
    Convert(u64),
    /// Look up the target's large file-info icon.
    FileIcon,
    /// Decompose the icon into its color and mask bitmaps.
    IconInfo(u64),
    /// Report the outcome.
    Finish(Result<String, IconError>),
}

/// One transition: the handles to release now, in order, and what comes next.
pub struct Step {
    pub next: Resolution,
    pub release: Vec<Handle>,
    pub request: Request,
}

pub open spec fn bitmap_if_set(h: u64) -> Multiset<Handle> {
    if h == 0 {
        Multiset::empty()
    } else {
        Multiset::singleton(Handle::Bitmap(h))
    }
}

pub open spec fn icon_if_set(h: u64) -> Multiset<Handle> {
    if h == 0 {
        Multiset::empty()
    } else {
        Multiset::singleton(Handle::Icon(h))
    }
}

/// The handles that a resolution in state `s` owns.
pub open spec fn held(s: Resolution) -> Multiset<Handle> {
    match s {
        Resolution::AwaitFactoryConvert { bitmap } => bitmap_if_set(bitmap),
        Resolution::AwaitIconInfo { icon } => Multiset::singleton(Handle::Icon(icon)),
        Resolution::AwaitConvert { color, mask, icon } => Multiset::singleton(Handle::Bitmap(color)).add(
            bitmap_if_set(mask),
        ).add(Multiset::singleton(Handle::Icon(icon))),
        _ => Multiset::empty(),
    }
}

/// The handles that the host acquired in performing the request that `e` answers.
pub open spec fn acquired(e: Event) -> Multiset<Handle> {
    match e {
        Event::FactoryImage(Ok(b)) => bitmap_if_set(b),
        Event::FileIcon(h) => icon_if_set(h),
        Event::IconInfo(Ok((color, mask))) => bitmap_if_set(color).add(bitmap_if_set(mask)),
        _ => Multiset::empty(),
    }
}

/// Whether `e` answers the request made on entering `s`.
pub open spec fn answers(s: Resolution, e: Event) -> bool {
    match s {
        Resolution::AwaitFactory => e is FactoryImage,
        Resolution::AwaitFactoryConvert { .. } => e is Converted,
        Resolution::AwaitFileIcon => e is FileIcon,
        Resolution::AwaitIconInfo { .. } => e is IconInfo,
        Resolution::AwaitConvert { .. } => e is Converted,
        Resolution::Done => false,
    }
}

pub open spec fn bitmap_seq(h: u64) -> Seq<Handle> {
    if h == 0 {
        seq![]
    } else {
        seq![Handle::Bitmap(h)]
    }
}

/// The state that a resolution starts in.
pub open spec fn start_spec(packaged: bool) -> Resolution {
    if packaged {
        Resolution::AwaitFactory
    } else {
        Resolution::AwaitFileIcon
    }
}

/// The next state and the handles released, in order, when `e` answers `s`.
pub open spec fn transition(s: Resolution, e: Event) -> (Resolution, Seq<Handle>) {
    match (s, e) {
        (Resolution::AwaitFactory, Event::FactoryImage(Ok(b))) => (Resolution::AwaitFactoryConvert { bitmap: b }, seq![]),
        (Resolution::AwaitFactory, Event::FactoryImage(Err(_))) => (Resolution::AwaitFileIcon, seq![]),
        (Resolution::AwaitFactoryConvert { bitmap }, Event::Converted(Ok(_))) => (Resolution::Done, bitmap_seq(bitmap)),
        (Resolution::AwaitFactoryConvert { bitmap }, Event::Converted(Err(_))) => (Resolution::AwaitFileIcon, bitmap_seq(bitmap)),
        (Resolution::AwaitFileIcon, Event::FileIcon(h)) => if h == 0 {
            (Resolution::Done, seq![])
        } else {
            (Resolution::AwaitIconInfo { icon: h }, seq![])
        },
        (Resolution::AwaitIconInfo { icon }, Event::IconInfo(Err(_))) => (Resolution::Done, seq![Handle::Icon(icon)]),
        (Resolution::AwaitIconInfo { icon }, Event::IconInfo(Ok((color, mask)))) => if color == 0 {
            (Resolution::Done, bitmap_seq(mask).push(Handle::Icon(icon)))
        } else {
            (Resolution::AwaitConvert { color, mask, icon }, seq![])
        },
        (Resolution::AwaitConvert { color, mask, icon }, Event::Converted(_)) => (
            Resolution::Done,
            seq![Handle::Bitmap(color)] + bitmap_seq(mask).push(Handle::Icon(icon)),
        ),
        _ => (Resolution::Done, seq![]),
    }
}

/// The outcome reported when `e` ends the resolution from `s`.
pub open spec fn outcome(s: Resolution, e: Event) -> Result<String, IconError> {
    match (s, e) {
        (Resolution::AwaitFactoryConvert { .. }, Event::Converted(r)) => r,
        (Resolution::AwaitConvert { .. }, Event::Converted(r)) => r,
        (Resolution::AwaitFileIcon, Event::FileIcon(_)) => Err(IconError::IconNotFound),
        (Resolution::AwaitIconInfo { .. }, Event::IconInfo(Err(m))) => Err(IconError::IconInfoFailed(m)),
        _ => Err(IconError::NoColorBitmap),
    }
}

/// The request that a resolution makes on entering `s`, where `s` is not done.
pub open spec fn request_for(s: Resolution) -> Request {
    match s {
        Resolution::AwaitFactory => Request::FactoryImage,
        Resolution::AwaitFactoryConvert { bitmap } => Request::Convert(bitmap),
        Resolution::AwaitFileIcon => Request::FileIcon,
        Resolution::AwaitIconInfo { icon } => Request::IconInfo(icon),
        Resolution::AwaitConvert { color, .. } => Request::Convert(color),
        Resolution::Done => Request::FileIcon,
    }
}

/// The handles that a sequence of answers acquired, all together.
pub open spec fn acquired_all(events: Seq<Event>) -> Multiset<Handle>
    decreases events.len(),
{
    if events.len() == 0 {
        Multiset::empty()
    } else {
        acquired(events[0]).add(acquired_all(events.drop_first()))
    }
}

/// Whether each of `events` answers the state that the ones before it led to.
pub open spec fn answers_all(s: Resolution, events: Seq<Event>) -> bool
    decreases events.len(),
{
    events.len() == 0 || (answers(s, events[0]) && answers_all(transition(s, events[0]).0, events.drop_first()))
}

/// The state that `events` lead to from `s`, and every handle released on the way.
pub open spec fn run(s: Resolution, events: Seq<Event>) -> (Resolution, Seq<Handle>)
    decreases events.len(),
{
    if events.len() == 0 {
        (s, seq![])
    } else {
        let (next, released) = transition(s, events[0]);
        let (last, rest) = run(next, events.drop_first());
        (last, released + rest)
    }
}

proof fn bitmap_seq_multiset(h: u64)
    ensures
        bitmap_seq(h).to_multiset() =~= bitmap_if_set(h),
{
    if h == 0 {
        assert(bitmap_seq(h) =~= Seq::<Handle>::empty());
    } else {
        assert(bitmap_seq(h) =~= Seq::<Handle>::empty().push(Handle::Bitmap(h)));
        assert(Multiset::<Handle>::empty().insert(Handle::Bitmap(h)) =~= Multiset::singleton(Handle::Bitmap(h)));
    }
}

proof fn single_multiset(x: Handle)
    ensures
        seq![x].to_multiset() =~= Multiset::singleton(x),
{
    assert(seq![x] =~= Seq::<Handle>::empty().push(x));
    assert(Multiset::<Handle>::empty().insert(x) =~= Multiset::singleton(x));
}

/// Each step keeps the books on native handles: what was held plus what the
/// host just acquired is what is held afterwards plus what the step releases,
/// and a finished resolution holds nothing.
pub proof fn step_balances_handles(s: Resolution, e: Event)
    requires
        answers(s, e),
    ensures
        held(s).add(acquired(e)) =~= held(transition(s, e).0).add(transition(s, e).1.to_multiset()),
        transition(s, e).0 is Done ==> held(transition(s, e).0) =~= Multiset::empty(),
{
    broadcast use vstd::seq_lib::lemma_multiset_commutative;

    assert(Seq::<Handle>::empty().to_multiset() =~= Multiset::empty());
    assert(seq![] =~= Seq::<Handle>::empty());
    match s {
        Resolution::AwaitFactory => {
            if let Event::FactoryImage(Ok(b)) = e {
                bitmap_seq_multiset(b);
            }
        },
        Resolution::AwaitFactoryConvert { bitmap } => {
            bitmap_seq_multiset(bitmap);
        },
        Resolution::AwaitFileIcon => {
            if let Event::FileIcon(h) = e {
                if h != 0 {
                    assert(icon_if_set(h) =~= Multiset::singleton(Handle::Icon(h)));
                }
            }
        },
        Resolution::AwaitIconInfo { icon } => {
            single_multiset(Handle::Icon(icon));
            if let Event::IconInfo(Ok((color, mask))) = e {
                bitmap_seq_multiset(mask);
                bitmap_seq_multiset(color);
                assert(bitmap_seq(mask).push(Handle::Icon(icon)) =~= bitmap_seq(mask) + seq![Handle::Icon(icon)]);
                if color != 0 {
                    assert(bitmap_if_set(color) =~= Multiset::singleton(Handle::Bitmap(color)));
                }
            }
        },
        Resolution::AwaitConvert { color, mask, icon } => {
            bitmap_seq_multiset(mask);
            single_multiset(Handle::Icon(icon));
            single_multiset(Handle::Bitmap(color));
            assert(bitmap_seq(mask).push(Handle::Icon(icon)) =~= bitmap_seq(mask) + seq![Handle::Icon(icon)]);
        },
        Resolution::Done => {},
    }
}

/// Over a whole resolution: from the start to the end, every handle that the
/// host acquired is released exactly once, whichever stage failed.
pub proof fn resolution_releases_every_handle(packaged: bool, events: Seq<Event>)
    requires
        answers_all(start_spec(packaged), events),
        run(start_spec(packaged), events).0 is Done,
    ensures
        run(start_spec(packaged), events).1.to_multiset() =~= acquired_all(events),
{
    let (last, released) = run(start_spec(packaged), events);
    run_balances_handles(start_spec(packaged), events);
    assert(held(start_spec(packaged)) =~= Multiset::empty());
    assert(held(last) =~= Multiset::empty());
    assert(held(start_spec(packaged)).add(acquired_all(events)) =~= acquired_all(events));
    assert(held(last).add(released.to_multiset()) =~= released.to_multiset());
}

proof fn run_balances_handles(s: Resolution, events: Seq<Event>)
    requires
        answers_all(s, events),
    ensures
        held(s).add(acquired_all(events)) =~= held(run(s, events).0).add(run(s, events).1.to_multiset()),
        run(s, events).0 is Done ==> held(run(s, events).0) =~= Multiset::empty(),
    decreases events.len(),
{
    broadcast use vstd::seq_lib::lemma_multiset_commutative;

    assert(Seq::<Handle>::empty().to_multiset() =~= Multiset::empty());
    if events.len() > 0 {
        let (next, released) = transition(s, events[0]);
        let (last, rest) = run(next, events.drop_first());
        step_balances_handles(s, events[0]);
        run_balances_handles(next, events.drop_first());
        assert(run(s, events).1 == released + rest);
        assert((released + rest).to_multiset() =~= released.to_multiset().add(rest.to_multiset()));
        let a0 = acquired(events[0]);
        let ar = acquired_all(events.drop_first());
        assert(held(s).add(acquired_all(events)) =~= held(s).add(a0).add(ar));
        assert(held(next).add(released.to_multiset()).add(ar) =~= held(next).add(ar).add(released.to_multiset()));
        assert(held(last).add(rest.to_multiset()).add(released.to_multiset()) =~= held(last).add(
            released.to_multiset().add(rest.to_multiset()),
        ));
    } else {
        assert(held(s).add(Multiset::empty()) =~= held(s));
        assert(held(s).add(Seq::<Handle>::empty().to_multiset()) =~= held(s));
    }
}

/// A packaged application whose image-factory attempt fails, at the factory or
/// at the conversion of its bitmap, goes on to the file-info lookup.
pub proof fn factory_failure_falls_back(bitmap: u64, reason: String, err: IconError)
    ensures
        transition(Resolution::AwaitFactory, Event::FactoryImage(Err(reason))).0 == Resolution::AwaitFileIcon,
        transition(Resolution::AwaitFactoryConvert { bitmap }, Event::Converted(Err(err))).0
            == Resolution::AwaitFileIcon,
        request_for(Resolution::AwaitFileIcon) == Request::FileIcon,
{
}

/// Starts the resolution of a target: packaged applications go to the image
/// factory first, everything else to the file-info lookup.
pub fn start(target: &str) -> (r: (Resolution, Request))
    ensures
        r.0 == start_spec(is_packaged(target.spec_bytes())),
        r.1 == request_for(r.0),
{
    if is_packaged_target(target) {
        (Resolution::AwaitFactory, Request::FactoryImage)
    } else {
        (Resolution::AwaitFileIcon, Request::FileIcon)
    }
}

fn push_bitmap_if_set(release: &mut Vec<Handle>, h: u64)
    ensures
        final(release)@ == old(release)@ + bitmap_seq(h),
{
    if h != 0 {
        release.push(Handle::Bitmap(h));
    }
    assert(final(release)@ =~= old(release)@ + bitmap_seq(h));
}

/// Advances a resolution in state `s` by the host's answer `e`.
pub fn step(s: Resolution, e: Event) -> (r: Step)
    requires
        answers(s, e),
    ensures
        (r.next, r.release@) == transition(s, e),
        r.next is Done ==> r.request == Request::Finish(outcome(s, e)),
        !(r.next is Done) ==> r.request == request_for(r.next),
{
    let mut release: Vec<Handle> = Vec::new();
    match s {
        Resolution::AwaitFactory => {
            match e {
                Event::FactoryImage(Ok(b)) => Step {
                    next: Resolution::AwaitFactoryConvert { bitmap: b },
                    release,
                    request: Request::Convert(b),
                },
                _ => Step { next: Resolution::AwaitFileIcon, release, request: Request::FileIcon },
            }
        },
        Resolution::AwaitFactoryConvert { bitmap } => {
            push_bitmap_if_set(&mut release, bitmap);
            match e {
                Event::Converted(Ok(url)) => Step {
                    next: Resolution::Done,
                    release,
                    request: Request::Finish(Ok(url)),
                },
                _ => Step { next: Resolution::AwaitFileIcon, release, request: Request::FileIcon },
            }
        },
        Resolution::AwaitFileIcon => {
            let h = match e {
                Event::FileIcon(h) => h,
                _ => 0,
            };
            if h == 0 {
                Step { next: Resolution::Done, release, request: Request::Finish(Err(IconError::IconNotFound)) }
            } else {
                Step { next: Resolution::AwaitIconInfo { icon: h }, release, request: Request::IconInfo(h) }
            }
        },
        Resolution::AwaitIconInfo { icon } => {
            match e {
                Event::IconInfo(Ok((color, mask))) => {
                    if color == 0 {
                        push_bitmap_if_set(&mut release, mask);
                        release.push(Handle::Icon(icon));
                        Step { next: Resolution::Done, release, request: Request::Finish(Err(IconError::NoColorBitmap)) }
                    } else {
                        Step {
                            next: Resolution::AwaitConvert { color, mask, icon },
                            release,
                            request: Request::Convert(color),
                        }
                    }
                },
                Event::IconInfo(Err(m)) => {
                    release.push(Handle::Icon(icon));
                    Step { next: Resolution::Done, release, request: Request::Finish(Err(IconError::IconInfoFailed(m))) }
                },
                _ => Step { next: Resolution::Done, release, request: Request::Finish(Err(IconError::NoColorBitmap)) },
            }
        },
        Resolution::AwaitConvert { color, mask, icon } => {
            release.push(Handle::Bitmap(color));
            push_bitmap_if_set(&mut release, mask);
            release.push(Handle::Icon(icon));
            let r = match e {
                Event::Converted(r) => r,
                _ => Err(IconError::NoColorBitmap),
            };
            proof {
                assert(release@ =~= seq![Handle::Bitmap(color)] + bitmap_seq(mask).push(Handle::Icon(icon)));
            }
            Step { next: Resolution::Done, release, request: Request::Finish(r) }
        },
        Resolution::Done => Step { next: Resolution::Done, release, request: Request::Finish(Err(IconError::NoColorBitmap)) },
    }
}

/// What the caller of a resolution sees: the encoded icon, or no icon
/// whatever the reason.
pub fn icon_or_none(outcome: Result<String, IconError>) -> (r: Option<String>)
    ensures
        match outcome {
            Ok(url) => r == Some(url),
            Err(_) => r is None,
        },
{
    match outcome {
        Ok(url) => Some(url),
        Err(_) => None,
    }
}

} // verus!
