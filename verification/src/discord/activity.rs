//! The activity that the adapter asks to be shown, and the requests it makes
//! of the Discord IPC client.
use crate::model::{ButtonView, DiscordButton, DiscordDisplayMode, buttons_view};
use vstd::prelude::*;

verus! {

/// What the user is doing; the presence always reports listening.
#[derive(Clone, Copy, PartialEq, Eq, Debug, Structural)]
pub enum ActivityKind {
    Playing,
    Listening,
    Watching,
    Competing,
}

/// The images of the activity and their hover texts.
#[derive(Debug)]
pub struct AssetsPlan {
    pub large_image: String,
    pub large_text: String,
    pub small_image: String,
    pub small_text: String,
}

/// Mathematical view of [`AssetsPlan`].
pub struct AssetsView {
    pub large_image: Seq<char>,
    pub large_text: Seq<char>,
    pub small_image: Seq<char>,
    pub small_text: Seq<char>,
}

impl View for AssetsPlan {
    type V = AssetsView;

    open spec fn view(&self) -> AssetsView {
        AssetsView {
            large_image: self.large_image@,
            large_text: self.large_text@,
            small_image: self.small_image@,
            small_text: self.small_text@,
        }
    }
}

/// An activity to be set on the Discord client.
#[derive(Debug)]
pub struct ActivityPlan {
    /// First line: the song.
    pub details: String,
    /// Second line: the artist.
    pub state: String,
    pub activity_type: ActivityKind,
    pub assets: AssetsPlan,
    pub status_display_type: DiscordDisplayMode,
    /// At most two buttons; an empty list means no buttons.
    pub buttons: Vec<DiscordButton>,
    /// Start and end of the progress bar, Unix milliseconds.
    pub timestamps: Option<(i64, i64)>,
}

/// Mathematical view of [`ActivityPlan`].
pub struct PlanView {
    pub details: Seq<char>,
    pub state: Seq<char>,
    pub activity_type: ActivityKind,
    pub assets: AssetsView,
    pub status_display_type: DiscordDisplayMode,
    pub buttons: Seq<ButtonView>,
    pub timestamps: Option<(i64, i64)>,
}

impl View for ActivityPlan {
    type V = PlanView;

    open spec fn view(&self) -> PlanView {
        PlanView {
            details: self.details@,
            state: self.state@,
            activity_type: self.activity_type,
            assets: self.assets@,
            status_display_type: self.status_display_type,
            buttons: buttons_view(self.buttons@),
            timestamps: self.timestamps,
        }
    }
}

/// What the adapter needs done on the Discord IPC client. After carrying out
/// a request, the caller reports whether it succeeded through
/// `DiscordAdapter::resume`, and carries out the request that comes back,
/// until the adapter answers `Idle`.
#[derive(Debug)]
pub enum IpcRequest {
    /// Nothing to do.
    Idle,
    /// Create a client for this application and connect it.
    Connect { app_id: String },
    /// Close the client and drop it.
    Close,
    /// Clear the activity.
    ClearActivity,
    /// Set this activity.
    SetActivity(ActivityPlan),
}

/// Mathematical view of [`IpcRequest`].
pub enum RequestView {
    Idle,
    Connect(Seq<char>),
    Close,
    ClearActivity,
    SetActivity(PlanView),
}

impl View for IpcRequest {
    type V = RequestView;

    open spec fn view(&self) -> RequestView {
        match self {
            IpcRequest::Idle => RequestView::Idle,
            IpcRequest::Connect { app_id } => RequestView::Connect(app_id@),
            IpcRequest::Close => RequestView::Close,
            IpcRequest::ClearActivity => RequestView::ClearActivity,
            IpcRequest::SetActivity(p) => RequestView::SetActivity(p@),
        }
    }
}

impl IpcRequest {
    /// Whether nothing is asked.
    pub fn is_idle(&self) -> (r: bool)
        ensures
            r == (self@ is Idle),
    {
        match self {
            IpcRequest::Idle => true,
            _ => false,
        }
    }
}

} // verus!
