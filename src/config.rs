use vstd::prelude::*;

verus! {

/// Settings of one render, read once before it starts.
///
/// The aspect ratio (width over height) is held exactly, as the fraction
/// `aspect_num / aspect_den`.
#[derive(Clone, Copy, Debug)]
pub struct RenderConfig {
    pub image_width: usize,
    pub aspect_num: usize,
    pub aspect_den: usize,
    pub samples_per_pixel: usize,
    pub max_depth: u32,
}

impl RenderConfig {
    /// The aspect ratio is a proper positive fraction.
    pub open spec fn wf(self) -> bool {
        self.aspect_num > 0 && self.aspect_den > 0
    }

    /// Image height: the width divided by the aspect ratio, truncated.
    pub open spec fn height_spec(self) -> int {
        (self.image_width as int * self.aspect_den as int) / (self.aspect_num as int)
    }

    /// Preset for a final image: 800 pixels wide, 3:2, 500 samples per pixel,
    /// paths of at most 50 bounces.
    pub fn new() -> (r: Self)
        ensures
            r.wf(),
            r.image_width == 800,
            r.aspect_num == 3,
            r.aspect_den == 2,
            r.samples_per_pixel == 500,
            r.max_depth == 50,
    {
        RenderConfig {
            image_width: 800,
            aspect_num: 3,
            aspect_den: 2,
            samples_per_pixel: 500,
            max_depth: 50,
        }
    }

    /// Preset for a preview: 400 pixels wide, 3:2, 100 samples per pixel,
    /// paths of at most 20 bounces.
    pub fn quick() -> (r: Self)
        ensures
            r.wf(),
            r.image_width == 400,
            r.aspect_num == 3,
            r.aspect_den == 2,
            r.samples_per_pixel == 100,
            r.max_depth == 20,
    {
        RenderConfig {
            image_width: 400,
            aspect_num: 3,
            aspect_den: 2,
            samples_per_pixel: 100,
            max_depth: 20,
        }
    }

    /// Height in pixels that goes with the width and the aspect ratio.
    pub fn image_height(&self) -> (r: usize)
        requires
            self.wf(),
            self.height_spec() <= usize::MAX,
        ensures
            r == self.height_spec(),
    {
        let w: u128 = self.image_width as u128;
        let d: u128 = self.aspect_den as u128;
        assert(w * d <= u64::MAX as u128 * u64::MAX as u128) by (nonlinear_arith)
            requires
                w <= u64::MAX,
                d <= u64::MAX,
        ;
        let prod: u128 = w * d;
        let h: u128 = prod / (self.aspect_num as u128);
        h as usize
    }
}

impl Default for RenderConfig {
    /// The preview preset.
    fn default() -> (r: Self)
        ensures
            r.wf(),
            r.image_width == 400,
            r.aspect_num == 3,
            r.aspect_den == 2,
            r.samples_per_pixel == 100,
            r.max_depth == 20,
    {
        Self::quick()
    }
}

} // verus!
