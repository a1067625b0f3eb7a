use vstd::prelude::*;

verus! {

/// Viewport width reported before any frame has been painted.
pub const DEFAULT_VIEW_WIDTH: i32 = 1280;
/// Viewport height reported before any frame has been painted.
pub const DEFAULT_VIEW_HEIGHT: i32 = 720;

/// A snapshot of a painted frame: packed RGB bytes, row by row, and its size in pixels.
pub struct Frame {
    pub buffer: Vec<u8>,
    pub width: i32,
    pub height: i32,
}

impl Frame {
    /// The buffer holds exactly three bytes for each pixel.
    pub open spec fn wf(&self) -> bool {
        self.width >= 0 && self.height >= 0 && self.buffer@.len() == self.width * self.height * 3
    }
}

/// Holder of the most recent frame. A buffer and its size are only ever
/// replaced together, so a snapshot always pairs a buffer with the size it was
/// published with.
pub struct FrameStore {
    frame: Option<Frame>,
}

impl FrameStore {
    /// A stored buffer always matches the size stored with it.
    pub closed spec fn wf(&self) -> bool {
        match self.frame {
            Some(f) => f.wf(),
            None => true,
        }
    }

    /// The stored frame as (bytes, width, height); `None` before the first publish.
    pub closed spec fn view(&self) -> Option<(Seq<u8>, int, int)> {
        match self.frame {
            Some(f) => Some((f.buffer@, f.width as int, f.height as int)),
            None => None,
        }
    }

    /// An empty store.
    pub fn new() -> (r: FrameStore)
        ensures
            r.wf(),
            r.view() == None::<(Seq<u8>, int, int)>,
    {
        FrameStore { frame: None }
    }

    /// Replaces the stored frame, buffer and size at once.
    pub fn publish(&mut self, buffer: Vec<u8>, width: i32, height: i32)
        requires
            width >= 0,
            height >= 0,
            buffer@.len() == width * height * 3,
        ensures
            final(self).wf(),
            final(self).view() == Some((buffer@, width as int, height as int)),
    {
        self.frame = Some(Frame { buffer, width, height });
    }

    /// A copy of the stored frame, or `None` before the first publish.
    pub fn read(&self) -> (r: Option<Frame>)
        requires
            self.wf(),
        ensures
            match r {
                Some(f) => f.wf() && self.view() == Some((f.buffer@, f.width as int, f.height as int)),
                None => self.view() == None::<(Seq<u8>, int, int)>,
            },
    {
        match &self.frame {
            Some(f) => Some(Frame { buffer: copy_bytes(&f.buffer), width: f.width, height: f.height }),
            None => None,
        }
    }

    /// The size of the stored frame, if there is one.
    pub fn dimensions(&self) -> (r: Option<(i32, i32)>)
        ensures
            match self.view() {
                Some(v) => r == Some((v.1 as i32, v.2 as i32)),
                None => r == None::<(i32, i32)>,
            },
    {
        match &self.frame {
            Some(f) => Some((f.width, f.height)),
            None => None,
        }
    }
}

/// Every read of a store that holds a published frame sees a buffer of
/// exactly `w * h * 3` bytes together with the size `(w, h)` it was published
/// with: never a buffer of one frame with the size of another.
pub proof fn lemma_published_frame_consistent(store: FrameStore, buf: Seq<u8>, w: int, h: int)
    requires
        store.wf(),
        store.view() == Some((buf, w, h)),
    ensures
        w >= 0,
        h >= 0,
        buf.len() == w * h * 3,
{
}

fn copy_bytes(v: &Vec<u8>) -> (r: Vec<u8>)
    ensures
        r@ == v@,
{
    let mut out: Vec<u8> = Vec::with_capacity(v.len());
    let mut i: usize = 0;
    while i < v.len()
        invariant
            i <= v@.len(),
            out@ == v@.subrange(0, i as int),
        decreases v@.len() - i,
    {
        out.push(v[i]);
        i = i + 1;
        proof {
            assert(out@ =~= v@.subrange(0, i as int));
        }
    }
    proof {
        assert(out@ =~= v@);
    }
    out
}

/// What the browser shows: address, title, loading flag and the last frame.
pub struct BrowserState {
    pub url: String,
    pub title: String,
    pub loading: bool,
    pub frame: FrameStore,
}

impl BrowserState {
    /// The viewport size to report to the engine: that of the last frame, or
    /// the non-zero default before any frame exists.
    pub fn view_rect(&self) -> (r: (i32, i32))
        ensures
            match self.frame.view() {
                Some(v) => r == (v.1 as i32, v.2 as i32),
                None => r == (DEFAULT_VIEW_WIDTH, DEFAULT_VIEW_HEIGHT),
            },
    {
        match self.frame.dimensions() {
            Some(d) => d,
            None => (DEFAULT_VIEW_WIDTH, DEFAULT_VIEW_HEIGHT),
        }
    }

    /// A copy of the last frame's bytes with its size.
    pub fn get_frame_data(&self) -> (r: Option<(Vec<u8>, (i32, i32))>)
        requires
            self.frame.wf(),
        ensures
            match r {
                Some(d) => self.frame.view() == Some((d.0@, d.1.0 as int, d.1.1 as int))
                    && d.0@.len() == d.1.0 * d.1.1 * 3,
                None => self.frame.view() == None::<(Seq<u8>, int, int)>,
            },
    {
        match self.frame.read() {
            Some(f) => Some((f.buffer, (f.width, f.height))),
            None => None,
        }
    }

    /// Records the page title.
    pub fn on_title_change(&mut self, title: &str)
        ensures
            final(self).title@ == title@,
            final(self).url == old(self).url,
            final(self).loading == old(self).loading,
            final(self).frame == old(self).frame,
    {
        self.title = String::from_str(title);
    }

    /// Records whether a page is loading.
    pub fn on_loading_state_change(&mut self, loading: bool)
        ensures
            final(self).loading == loading,
            final(self).url == old(self).url,
            final(self).title == old(self).title,
            final(self).frame == old(self).frame,
    {
        self.loading = loading;
    }

    /// Records a new address, which counts only for the main frame.
    pub fn on_address_change(&mut self, is_main_frame: bool, url: &str)
        ensures
            is_main_frame ==> final(self).url@ == url@,
            !is_main_frame ==> final(self).url == old(self).url,
            final(self).title == old(self).title,
            final(self).loading == old(self).loading,
            final(self).frame == old(self).frame,
    {
        if is_main_frame {
            self.url = String::from_str(url);
        }
    }
}

impl Default for BrowserState {
    fn default() -> (r: BrowserState)
        ensures
            r.url@ == "about:blank"@,
            r.title@.len() == 0,
            !r.loading,
            r.frame.wf(),
            r.frame.view() == None::<(Seq<u8>, int, int)>,
    {
        BrowserState {
            url: String::from_str("about:blank"),
            title: String::new(),
            loading: false,
            frame: FrameStore::new(),
        }
    }
}

} // verus!
