use vstd::prelude::*;

verus! {

pub const RATELIMIT_LIMIT_HEADER: &'static str = "x-ratelimit-limit";

pub const RATELIMIT_RESET_HEADER: &'static str = "x-ratelimit-reset";

pub const RATELIMIT_REMAINING_HEADER: &'static str = "x-ratelimit-remaining";

/// What the server last said about the requests that are left. A window is
/// a pair: so many requests, in so many seconds.
#[derive(Debug, Default, PartialEq, Eq)]
pub struct Ratelimit {
    pub remaining: u32,
    pub reset_in_seconds: u32,
    pub windows: Vec<(u32, u32)>,
}

pub struct RatelimitView {
    pub remaining: u32,
    pub reset_in_seconds: u32,
    pub windows: Seq<(u32, u32)>,
}

impl View for Ratelimit {
    type V = RatelimitView;

    open spec fn view(&self) -> RatelimitView {
        RatelimitView {
            remaining: self.remaining,
            reset_in_seconds: self.reset_in_seconds,
            windows: self.windows@,
        }
    }
}

impl Clone for Ratelimit {
    fn clone(&self) -> (r: Self)
        ensures
            r@ == self@,
    {
        let mut windows: Vec<(u32, u32)> = Vec::new();
        let mut i: usize = 0;
        while i < self.windows.len()
            invariant
                i <= self.windows.len(),
                windows@ == self.windows@.subrange(0, i as int),
            decreases self.windows.len() - i,
        {
            windows.push(self.windows[i]);
            assert(windows@ =~= self.windows@.subrange(0, i + 1));
            i = i + 1;
        }
        assert(windows@ =~= self.windows@);
        Ratelimit { remaining: self.remaining, reset_in_seconds: self.reset_in_seconds, windows }
    }
}

/// The view of an optional rate limit.
pub open spec fn option_ratelimit(r: Option<Ratelimit>) -> Option<RatelimitView> {
    match r {
        Some(r) => Some(r@),
        None => None,
    }
}

} // verus!
