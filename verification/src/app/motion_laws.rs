//! When something on the screen moves, and for how long.

use vstd::prelude::*;

use crate::app::motion::{is_over, pane_slide};
use crate::app::state::AppMode;
use crate::app::MotionView;
use crate::path_laws::{is_plain_name, names_are_found_again};
use crate::paths::joined;

verus! {

/// A movement is over exactly when its time has passed; one without a time never
/// shows.
pub proof fn movements_last_their_time(at: u64, now: u64, lasts: u64)
    requires
        at <= now,
    ensures
        lasts > 0 ==> (is_over(at, now, lasts) <==> now - at >= lasts),
        lasts == 0 ==> is_over(at, now, lasts),
        lasts > 0 ==> !is_over(at, at, lasts),
{
}

/// A pane that goes down into a directory slides one way, and any other way it
/// goes it slides the other; the first listing does not slide, nor does any
/// where nothing is to move.
pub proof fn panes_slide_down_into_directories(
    dir: Seq<char>,
    name: Seq<char>,
    other: Seq<char>,
    now: u64,
)
    requires
        dir.len() > 0,
        is_plain_name(name),
    ensures
        pane_slide(dir, joined(dir, name), true, now) == Some((true, now)),
        pane_slide(joined(dir, name), dir, true, now) == Some((false, now)),
        pane_slide(dir, other, false, now) is None,
        pane_slide(Seq::empty(), other, true, now) is None,
{
    names_are_found_again(dir, name);
    let below = joined(dir, name);
    let down = crate::paths::steps(below);
    let up = crate::paths::steps(dir);
    assert(up == down.drop_last());
    assert(down.take(up.len() as int) =~= up);
}

/// Switching tabs starts a slide from the tab that was shown to the one that is;
/// staying on a tab starts none.
pub proof fn tab_slides_go_from_old_to_new(motion: MotionView, tab: usize)
    ensures
        ({
            let after = motion.tab_seen(tab, true);
            &&& after.prev_tab == tab
            &&& tab != motion.prev_tab ==> (after.tab_switch matches Some(slide) && slide.from
                == motion.prev_tab && slide.to == tab && slide.at == motion.clock)
            &&& tab == motion.prev_tab ==> after.tab_switch == motion.tab_switch
            &&& motion.tab_seen(tab, false).tab_switch == motion.tab_switch
        }),
{
}

/// A queue that grew is drawn to, one that shrank is not, and the selection and
/// the notice are drawn to when they change.
pub proof fn changes_are_drawn_to(
    motion: MotionView,
    queued: usize,
    selected: usize,
    notice: Option<Seq<char>>,
)
    ensures
        queued > motion.prev_queue ==> motion.queue_seen(queued as nat).sftp_queue_at == Some(
            motion.clock,
        ),
        queued < motion.prev_queue ==> motion.queue_seen(queued as nat).sftp_queue_at is None,
        motion.queue_seen(queued as nat).prev_queue == queued,
        selected != motion.prev_selected ==> motion.selection_seen(selected).selection_at == Some(
            motion.clock,
        ),
        selected == motion.prev_selected ==> motion.selection_seen(selected) == motion,
        notice is Some && notice != motion.prev_notice ==> motion.notice_seen(
            notice,
        ).host_notice_at == Some(motion.clock),
        notice == motion.prev_notice ==> motion.notice_seen(notice) == motion,
{
}

/// A popup that opens over the screen starts its drop; one that closes is thrown
/// out from then on.
pub proof fn popups_open_and_close(motion: MotionView)
    requires
        motion.prev_mode is Normal,
    ensures
        ({
            let open = motion.mode_seen(AppMode::Help, true);
            let shut = open.mode_seen(AppMode::Normal, true);
            &&& open.mode_entered_at == motion.clock
            &&& open.popup_closing_at is None
            &&& shut.popup_closing_at == Some(motion.clock)
        }),
{
}

} // verus!
