//! Live-broadcast snapshots and the status line announced for one.
//!
//! The remote "streams" query answers with a list of snapshots scoped to one
//! broadcaster: an empty list means not live, any element means live and the
//! first one describes the broadcast.

use crate::text::{decimal_of, push_decimal};
use vstd::prelude::*;
use vstd::string::StringExecFns;

verus! {

/// One live broadcast as the remote "streams" resource describes it.
pub struct Stream {
    pub id: String,
    pub user_id: String,
    pub user_login: String,
    pub user_name: String,
    pub game_id: String,
    pub game_name: String,
    pub stream_type: String,
    pub title: String,
    pub viewer_count: u32,
    pub started_at: String,
    pub language: String,
    pub thumbnail_url: String,
}

/// The fields of a snapshot that the announced status line shows.
pub struct StreamModel {
    pub user_name: Seq<char>,
    pub title: Seq<char>,
    pub game_name: Seq<char>,
    pub viewer_count: u32,
}

impl View for Stream {
    type V = StreamModel;

    open spec fn view(&self) -> StreamModel {
        StreamModel {
            user_name: self.user_name@,
            title: self.title@,
            game_name: self.game_name@,
            viewer_count: self.viewer_count,
        }
    }
}

/// The status line announced for a live broadcast: the broadcaster's name,
/// the title, the game and the viewer count.
pub open spec fn live_message_of(s: StreamModel) -> Seq<char> {
    "Le streamer "@ + s.user_name + " est en live ! Titre: "@ + s.title + ", Jeu: "@ + s.game_name
        + ", Viewers: "@ + decimal_of(s.viewer_count as nat)
}

/// Formats the status line for a live broadcast.
pub fn live_message(s: &Stream) -> (r: String)
    ensures
        r@ == live_message_of(s@),
{
    let mut out = "Le streamer ".to_owned();
    out.append(s.user_name.as_str());
    out.append(" est en live ! Titre: ");
    out.append(s.title.as_str());
    out.append(", Jeu: ");
    out.append(s.game_name.as_str());
    out.append(", Viewers: ");
    push_decimal(&mut out, s.viewer_count);
    out
}

/// Whether `part` occurs contiguously inside `whole`.
pub open spec fn occurs_in(whole: Seq<char>, part: Seq<char>) -> bool {
    exists|i: int|
        0 <= i && i + part.len() <= whole.len() && #[trigger] whole.subrange(i, i + part.len())
            == part
}

/// The status line announced for a live broadcast mentions all four fields
/// the snapshot shows: the broadcaster's name, the title, the game and the
/// viewer count, each verbatim.
pub proof fn lemma_live_message_mentions_the_snapshot(s: StreamModel)
    ensures
        occurs_in(live_message_of(s), s.user_name),
        occurs_in(live_message_of(s), s.title),
        occurs_in(live_message_of(s), s.game_name),
        occurs_in(live_message_of(s), decimal_of(s.viewer_count as nat)),
{
    let m = live_message_of(s);
    let a = "Le streamer "@.len() as int;
    let b = " est en live ! Titre: "@.len() as int;
    let c = ", Jeu: "@.len() as int;
    let d = ", Viewers: "@.len() as int;
    let name_at = a;
    let title_at = a + s.user_name.len() + b;
    let game_at = title_at + s.title.len() + c;
    let count_at = game_at + s.game_name.len() + d;
    assert(m.subrange(name_at, name_at + s.user_name.len()) =~= s.user_name);
    assert(m.subrange(title_at, title_at + s.title.len()) =~= s.title);
    assert(m.subrange(game_at, game_at + s.game_name.len()) =~= s.game_name);
    assert(m.subrange(count_at, count_at + decimal_of(s.viewer_count as nat).len()) =~= decimal_of(
        s.viewer_count as nat,
    ));
}

/// Reads the remote query's answer: an empty list means the broadcaster is
/// not live; otherwise the first snapshot stands for the live broadcast.
pub fn live_snapshot_from_list(data: Vec<Stream>) -> (r: Option<Stream>)
    ensures
        data@.len() == 0 <==> r is None,
        data@.len() > 0 ==> r == Some(data@[0]),
{
    let mut d = data;
    if d.is_empty() {
        None
    } else {
        let first = d.remove(0);
        Some(first)
    }
}

} // verus!
