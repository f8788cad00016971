//! Physical outputs.
use vstd::prelude::*;
use crate::data_types::{widen, widened, Region};

verus! {

/// What the server reports of one output controller: where its picture lies
/// in the root window and how large it is. A controller that drives no
/// output reports a width of zero.
#[derive(Debug, Copy, Clone, PartialEq, Eq, Structural)]
pub struct CrtcInfo {
    pub x: i16,
    pub y: i16,
    pub width: u16,
    pub height: u16,
}

impl CrtcInfo {
    /// The area of the root window that the controller shows.
    pub open spec fn region(self) -> Region {
        Region { x: widened(self.x), y: widened(self.y), w: self.width as u32, h: self.height as u32 }
    }
}

/// One physical output.
#[derive(Debug, Copy, Clone, PartialEq, Eq, Structural)]
pub struct Screen {
    /// The full area of the output.
    pub true_region: Region,
    /// The area left for windows once room for docked elements is set aside.
    pub effective_region: Region,
    /// The position of the output among those the server reported.
    pub wix: usize,
}

impl Screen {
    /// The screen of an output controller. Nothing is reserved on it yet, so
    /// the effective region is the whole output.
    pub fn from_crtc_info_reply(r: CrtcInfo, wix: usize) -> (s: Screen)
        ensures
            s == (Screen { true_region: r.region(), effective_region: r.region(), wix }),
    {
        let region = Region::new(widen(r.x), widen(r.y), r.width as u32, r.height as u32);
        Screen { true_region: region, effective_region: region, wix }
    }
}

/// The replies that arrived, in order: a controller whose query failed is
/// passed over.
pub open spec fn answered(replies: Seq<Option<CrtcInfo>>) -> Seq<CrtcInfo>
    decreases replies.len(),
{
    if replies.len() == 0 {
        seq![]
    } else {
        let before = answered(replies.drop_last());
        match replies.last() {
            Some(info) => before.push(info),
            None => before,
        }
    }
}

/// The screens of the controllers that drive an output, that is, report a
/// width above zero. Each screen is numbered by the place of its controller
/// in `infos`, so the numbers of a list with idle controllers have gaps.
pub open spec fn screens_of(infos: Seq<CrtcInfo>) -> Seq<Screen>
    decreases infos.len(),
{
    if infos.len() == 0 {
        seq![]
    } else {
        let before = screens_of(infos.drop_last());
        let info = infos.last();
        if info.width > 0 {
            before.push(
                Screen {
                    true_region: info.region(),
                    effective_region: info.region(),
                    wix: (infos.len() - 1) as usize,
                },
            )
        } else {
            before
        }
    }
}

/// The outputs that a list of replies to controller queries describes.
pub open spec fn outputs(replies: Seq<Option<CrtcInfo>>) -> Seq<Screen> {
    screens_of(answered(replies))
}

/// No screen of [`screens_of`] has a width of zero, and each is the screen
/// of the controller whose place it is numbered by.
pub proof fn lemma_screens_have_width(infos: Seq<CrtcInfo>)
    requires
        infos.len() <= usize::MAX,
    ensures
        screens_of(infos).len() <= infos.len(),
        forall|k: int|
            0 <= k < screens_of(infos).len() ==> {
                let s = #[trigger] screens_of(infos)[k];
                &&& s.true_region.w > 0
                &&& s.wix < infos.len()
                &&& s.true_region == infos[s.wix as int].region()
                &&& s.effective_region == s.true_region
            },
    decreases infos.len(),
{
    if infos.len() > 0 {
        lemma_screens_have_width(infos.drop_last());
        assert forall|k: int| 0 <= k < screens_of(infos).len() implies {
            let s = #[trigger] screens_of(infos)[k];
            &&& s.true_region.w > 0
            &&& s.wix < infos.len()
            &&& s.true_region == infos[s.wix as int].region()
            &&& s.effective_region == s.true_region
        } by {
            let before = screens_of(infos.drop_last());
            if k < before.len() {
                let s = before[k];
                assert(screens_of(infos)[k] == s);
                assert(infos.drop_last()[s.wix as int] == infos[s.wix as int]);
            }
        }
    }
}

/// A controller that answered and drives an output has its screen among the
/// outputs.
pub proof fn lemma_driving_controller_is_shown(infos: Seq<CrtcInfo>, at: int)
    requires
        infos.len() <= usize::MAX,
        0 <= at < infos.len(),
        infos[at].width > 0,
    ensures
        screens_of(infos).contains(
            Screen {
                true_region: infos[at].region(),
                effective_region: infos[at].region(),
                wix: at as usize,
            },
        ),
    decreases infos.len(),
{
    let wanted = Screen {
        true_region: infos[at].region(),
        effective_region: infos[at].region(),
        wix: at as usize,
    };
    let before = screens_of(infos.drop_last());
    if at == infos.len() - 1 {
        assert(screens_of(infos) == before.push(wanted));
        assert(before.push(wanted)[before.len() as int] == wanted);
    } else {
        lemma_driving_controller_is_shown(infos.drop_last(), at);
        assert(infos.drop_last()[at] == infos[at]);
        let k = choose|k: int| 0 <= k < before.len() && before[k] == wanted;
        assert(screens_of(infos)[k] == wanted);
    }
}

/// The outputs that are connected, from the replies to the queries of the
/// output controllers, in the controllers' order; `None` stands for a query
/// that failed. Controllers that report a width of zero drive no output and
/// give no screen.
pub fn current_outputs(replies: &[Option<CrtcInfo>]) -> (screens: Vec<Screen>)
    ensures
        screens@ == outputs(replies@),
        screens@.len() <= replies@.len(),
        forall|k: int| 0 <= k < screens@.len() ==> (#[trigger] screens@[k]).true_region.w > 0,
{
    let mut screens: Vec<Screen> = Vec::new();
    let mut arrived: usize = 0;
    let mut i: usize = 0;
    while i < replies.len()
        invariant
            i <= replies@.len(),
            arrived == answered(replies@.take(i as int)).len(),
            arrived <= i,
            screens@ == screens_of(answered(replies@.take(i as int))),
        decreases replies@.len() - i,
    {
        proof {
            assert(replies@.take(i + 1).drop_last() =~= replies@.take(i as int));
            assert(replies@.take(i + 1).last() == replies@[i as int]);
        }
        match replies[i] {
            Some(info) => {
                proof {
                    let infos = answered(replies@.take(i + 1));
                    assert(infos.drop_last() =~= answered(replies@.take(i as int)));
                    assert(infos.last() == info);
                }
                let screen = Screen::from_crtc_info_reply(info, arrived);
                if screen.true_region.w > 0 {
                    screens.push(screen);
                }
                arrived += 1;
            },
            None => {},
        }
        i += 1;
    }
    proof {
        assert(replies@.take(i as int) =~= replies@);
        lemma_screens_have_width(answered(replies@));
    }
    screens
}

} // verus!
