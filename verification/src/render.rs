use vstd::prelude::*;

verus! {

use vstd::string::*;
use crate::state::Model;
use crate::video::Video;

/// One element of the rendered markup: the fetch button, the file input, or
/// an inline video player.
pub enum Node {
    Button { label: String },
    FileInput,
    VideoPlayer { src: String, autoplay: bool, muted: bool, looped: bool, playsinline: bool },
}

/// The mathematical content of a `Node`.
pub enum NodeM {
    Button { label: Seq<char> },
    FileInput,
    VideoPlayer { src: Seq<char>, autoplay: bool, muted: bool, looped: bool, playsinline: bool },
}

impl DeepView for Node {
    type V = NodeM;

    open spec fn deep_view(&self) -> NodeM {
        match self {
            Node::Button { label } => NodeM::Button { label: label@ },
            Node::FileInput => NodeM::FileInput,
            Node::VideoPlayer { src, autoplay, muted, looped, playsinline } => NodeM::VideoPlayer {
                src: src@,
                autoplay: *autoplay,
                muted: *muted,
                looped: *looped,
                playsinline: *playsinline,
            },
        }
    }
}

/// The container the markup hangs from.
pub struct Page {
    pub children: Vec<Node>,
}

/// The player for one video entry: autoplaying, looping, muted, inline.
pub open spec fn video_node_spec(src: Seq<char>) -> NodeM {
    NodeM::VideoPlayer { src, autoplay: true, muted: true, looped: true, playsinline: true }
}

/// The markup for a state: the fetch button, the file input, and one player
/// per listed video, in list order.
pub open spec fn page_spec(videos: Seq<Seq<char>>) -> Seq<NodeM> {
    seq![NodeM::Button { label: "Get Videos"@ }, NodeM::FileInput] + videos.map_values(
        |src: Seq<char>| video_node_spec(src),
    )
}

/// Render one video entry.
pub fn view_video(video: &Video) -> (n: Node)
    ensures
        n.deep_view() == video_node_spec(video.src@),
{
    Node::VideoPlayer {
        src: video.src.clone(),
        autoplay: true,
        muted: true,
        looped: true,
        playsinline: true,
    }
}

/// Render the whole page from the current state, reading it only.
pub fn view(m: &Model) -> (page: Page)
    ensures
        page.children.deep_view() == page_spec(m@.videos),
{
        let mut children: Vec<Node> = Vec::new();
        children.push(Node::Button { label: String::from_str("Get Videos") });
        children.push(Node::FileInput);
        let n = m.videos.len();
        let mut i: usize = 0;
        while i < n
            invariant
                i <= n,
                n == m.videos@.len(),
                children@.len() == i + 2,
                children@[0].deep_view() == (NodeM::Button { label: "Get Videos"@ }),
                children@[1].deep_view() == NodeM::FileInput,
                forall|k: int|
                    2 <= k < i + 2 ==> (#[trigger] children@[k]).deep_view() == video_node_spec(
                        m.videos@[k - 2].src@,
                    ),
            decreases n - i,
        {
            let node = view_video(&m.videos[i]);
            children.push(node);
            i += 1;
        }
        proof {
            assert(children.deep_view() =~= page_spec(m@.videos));
        }
    Page { children }
}

} // verus!
