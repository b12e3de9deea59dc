//! Camera control and frame handling: starting and stopping, the frame
//! pacing and rate count, choosing the device, turning captured pixels into
//! RGB, and encoding frames for the frontend.

use vstd::prelude::*;
use crate::models::CameraStatus;
use crate::text::{contains_text, text_contains, text_equals};
use vstd::string::{StrSliceExecFns, StringExecFns};

verus! {

/// The RGB bytes of RGBA pixels: the first three bytes of each whole group
/// of four, in order (a trailing partial group is dropped).
pub open spec fn rgb_of_rgba(rgba: Seq<u8>) -> Seq<u8> {
    Seq::new((rgba.len() / 4 * 3) as nat, |i: int| rgba[4 * (i / 3) + i % 3])
}

/// Drops the alpha byte of each RGBA pixel.
pub fn rgba_to_rgb(rgba: &[u8]) -> (r: Vec<u8>)
    ensures
        r@ == rgb_of_rgba(rgba@),
{
    let len = rgba.len();
    let pixels = len / 4;
    let mut r: Vec<u8> = Vec::new();
    let mut k: usize = 0;
    while k < pixels
        invariant
            len == rgba@.len(),
            pixels == len / 4,
            k <= pixels,
            r@.len() == 3 * k,
            forall|i: int| 0 <= i < 3 * k ==> #[trigger] r@[i] == rgba@[4 * (i / 3) + i % 3],
        decreases pixels - k,
    {
        assert(4 * k + 3 < len);
        let base = 4 * k;
        r.push(rgba[base]);
        r.push(rgba[base + 1]);
        r.push(rgba[base + 2]);
        proof {
            assert((3 * k as int) / 3 == k as int && (3 * k as int) % 3 == 0);
            assert((3 * k as int + 1) / 3 == k as int && (3 * k as int + 1) % 3 == 1);
            assert((3 * k as int + 2) / 3 == k as int && (3 * k as int + 2) % 3 == 2);
        }
        k = k + 1;
    }
    assert(r@ =~= rgb_of_rgba(rgba@));
    r
}

/// The RGB data of a captured frame: a buffer of exactly four bytes per
/// pixel is RGBA and loses its alpha bytes; any other buffer is taken as it is.
pub fn frame_rgb(raw: &Vec<u8>, width: u32, height: u32) -> (r: Vec<u8>)
    requires
        width * height * 4 <= u32::MAX,
    ensures
        r@ == if raw@.len() == width * height * 4 {
            rgb_of_rgba(raw@)
        } else {
            raw@
        },
{
    let expected: u32 = width * height * 4;
    if raw.len() == expected as usize {
        rgba_to_rgb(raw.as_slice())
    } else {
        raw.clone()
    }
}

/// The pause between frames, in milliseconds, for a target rate; a rate of
/// zero paces at 33 ms.
pub fn frame_interval_ms(target_fps: u32) -> (r: u32)
    ensures
        r == if target_fps > 0 { 1000u32 / target_fps } else { 33u32 },
{
    if target_fps > 0 {
        1000 / target_fps
    } else {
        33
    }
}

/// The rate a camera is started at: the configured one, but at least 1.
pub fn effective_fps(fps: u32) -> (r: u32)
    ensures
        r == if fps >= 1 { fps } else { 1 },
{
    if fps >= 1 {
        fps
    } else {
        1
    }
}

/// Whether a requested device stands for "the default device".
pub open spec fn names_default(device_id: Seq<char>) -> bool {
    device_id == "default"@ || device_id.len() == 0
}

/// The device a start request resolves to: a request for the default device
/// takes the preferred device of the configuration, or `default` where none
/// is preferred; any other request names its device.
pub fn resolve_device(device_id: &str, preferred: Option<String>) -> (r: String)
    ensures
        r@ == if names_default(device_id@) {
            match preferred {
                Some(p) => p@,
                None => "default"@,
            }
        } else {
            device_id@
        },
{
    if text_equals(device_id, "default") || device_id.unicode_len() == 0 {
        match preferred {
            Some(p) => p,
            None => String::from_str("default"),
        }
    } else {
        String::from_str(device_id)
    }
}

/// The capture device to open among those found (identifier, name): a
/// request for the default device opens the first one found.
pub fn capture_device_id(devices: &Vec<(String, String)>, device_id: &str) -> (r: String)
    requires
        devices@.len() > 0,
    ensures
        r@ == if names_default(device_id@) {
            devices@[0].0@
        } else {
            device_id@
        },
{
    if text_equals(device_id, "default") || device_id.unicode_len() == 0 {
        devices[0].0.clone()
    } else {
        String::from_str(device_id)
    }
}

/// Whether a source group (identifier, display name) matches a requested
/// device: the request occurs in its identifier or in its name.
pub open spec fn group_matches(group: (String, String), device_id: Seq<char>) -> bool {
    contains_text(group.0@, device_id) || contains_text(group.1@, device_id)
}

/// The position of the last group that matches the request, if any.
pub open spec fn last_matching_group(groups: Seq<(String, String)>, device_id: Seq<char>) -> Option<int>
    decreases groups.len(),
{
    if groups.len() == 0 {
        None
    } else if group_matches(groups.last(), device_id) {
        Some(groups.len() - 1)
    } else {
        last_matching_group(groups.drop_last(), device_id)
    }
}

/// The source group to capture from: the last one that matches the
/// request, else the first one where the request is `default`.
pub open spec fn chosen_group(groups: Seq<(String, String)>, device_id: Seq<char>) -> Option<int> {
    match last_matching_group(groups, device_id) {
        Some(i) => Some(i),
        None => if device_id == "default"@ && groups.len() > 0 {
            Some(0)
        } else {
            None
        },
    }
}

/// Picks the source group (identifier, display name) to capture from, by
/// its position among those found, as `chosen_group` says.
pub fn select_source_group(groups: &Vec<(String, String)>, device_id: &str) -> (r: Option<usize>)
    ensures
        r matches Some(i) ==> i < groups@.len(),
        match r {
            Some(i) => chosen_group(groups@, device_id@) == Some(i as int),
            None => chosen_group(groups@, device_id@) is None,
        },
{
    let n = groups.len();
    let mut selected: Option<usize> = None;
    let mut i: usize = 0;
    while i < n
        invariant
            n == groups@.len(),
            i <= n,
            match selected {
                Some(k) => k < i && last_matching_group(groups@.take(i as int), device_id@) == Some(k as int),
                None => last_matching_group(groups@.take(i as int), device_id@) is None,
            },
        decreases n - i,
    {
        let g = &groups[i];
        let m = text_contains(g.0.as_str(), device_id) || text_contains(g.1.as_str(), device_id);
        proof {
            let t = groups@.take(i + 1);
            assert(t.drop_last() =~= groups@.take(i as int));
            assert(t.last() == groups@[i as int]);
        }
        if m {
            selected = Some(i);
        }
        i = i + 1;
    }
    assert(groups@.take(n as int) =~= groups@);
    match selected {
        Some(k) => Some(k),
        None => {
            if text_equals(device_id, "default") && n > 0 {
                Some(0)
            } else {
                None
            }
        },
    }
}

/// A camera the frontend can choose.
#[derive(Clone, Debug)]
pub struct CameraDevice {
    pub id: String,
    pub name: String,
}

/// The cameras offered to the frontend: those found (identifier, name), in
/// order, or the single default camera where none was found.
pub fn camera_list(found: Vec<(String, String)>) -> (r: Vec<CameraDevice>)
    ensures
        found@.len() > 0 ==> r@.len() == found@.len() && forall|i: int|
            0 <= i < found@.len() ==> #[trigger] r@[i].id == found@[i].0 && r@[i].name == found@[i].1,
        found@.len() == 0 ==> r@.len() == 1 && r@[0].id@ == "default"@ && r@[0].name@ == "Default Camera"@,
{
    if found.len() == 0 {
        let mut r: Vec<CameraDevice> = Vec::new();
        r.push(CameraDevice { id: String::from_str("default"), name: String::from_str("Default Camera") });
        return r;
    }
    let ghost all = found@;
    let mut rest = found;
    let mut r: Vec<CameraDevice> = Vec::new();
    let n = rest.len();
    let mut k: usize = 0;
    while k < n
        invariant
            n == all.len(),
            k <= n,
            rest@ == all.skip(k as int),
            r@.len() == k,
            forall|i: int| 0 <= i < k ==> #[trigger] r@[i].id == all[i].0 && r@[i].name == all[i].1,
        decreases n - k,
    {
        let (id, name) = rest.remove(0);
        assert(all[k as int] == (id, name));
        r.push(CameraDevice { id, name });
        assert(rest@ =~= all.skip(k + 1));
        k = k + 1;
    }
    r
}

/// What `image`'s `JpegEncoder` at a quality gives for RGB pixels of the
/// given size: the JPEG it writes, or `None` where it refuses.
pub uninterp spec fn jpeg_rgb8(pixels: Seq<u8>, width: u32, height: u32, quality: u8) -> Option<Seq<u8>>;

/// The JPEG quality frames are sent at.
pub const JPEG_QUALITY: u8 = 60;

/// Encodes RGB pixels as JPEG with `image::codecs::jpeg::JpegEncoder`
/// (`new_with_quality`, then `encode`), into a buffer in memory.
///
/// Trusted: the outcome is named `jpeg_rgb8`; the encoder refuses an image
/// with a side of 0 or beyond 65535, as its source shows.
#[verifier::external_body]
fn encode_jpeg_rgb8(pixels: &[u8], width: u32, height: u32, quality: u8) -> (r: Option<Vec<u8>>)
    requires
        pixels@.len() == 3 * width * height,
    ensures
        match r {
            Some(b) => jpeg_rgb8(pixels@, width, height, quality) == Some(b@),
            None => jpeg_rgb8(pixels@, width, height, quality) is None,
        },
        width == 0 || height == 0 || width > 65535 || height > 65535 ==> r is None,
{
    let mut out = std::io::Cursor::new(Vec::new());
    let mut encoder = image::codecs::jpeg::JpegEncoder::new_with_quality(&mut out, quality);
    match encoder.encode(pixels, width, height, image::ExtendedColorType::Rgb8) {
        Ok(()) => Some(out.into_inner()),
        Err(_) => None,
    }
}

/// The pixels a frame is encoded from: the buffer where it holds exactly one
/// RGB image of the given size, a black image where it holds less.
pub open spec fn image_pixels(rgb: Seq<u8>, width: u32, height: u32) -> Seq<u8> {
    if rgb.len() == 3 * width * height {
        rgb
    } else {
        Seq::new((3 * width * height) as nat, |i: int| 0u8)
    }
}

/// What `compress_to_jpeg` gives: the JPEG of the frame, or the RGB bytes
/// themselves where the encoder refuses.
pub open spec fn compressed_frame(rgb: Seq<u8>, width: u32, height: u32) -> Seq<u8> {
    match jpeg_rgb8(image_pixels(rgb, width, height), width, height, JPEG_QUALITY) {
        Some(b) => b,
        None => rgb,
    }
}

/// Compresses an RGB frame to JPEG at quality 60. A buffer shorter than the
/// image is encoded as a black image; where the encoder refuses (a side of 0
/// or beyond 65535), the RGB bytes are given back.
pub fn compress_to_jpeg(rgb: &Vec<u8>, width: u32, height: u32) -> (r: Vec<u8>)
    requires
        3 * width * height <= usize::MAX,
        rgb@.len() <= 3 * width * height,
    ensures
        r@ == compressed_frame(rgb@, width, height),
        width == 0 || height == 0 || width > 65535 || height > 65535 ==> r@ == rgb@,
        rgb@.len() == 3 * width * height ==> r@ == match jpeg_rgb8(rgb@, width, height, 60u8) {
            Some(b) => b,
            None => rgb@,
        },
{
    let w = width as usize;
    let h = height as usize;
    assert(3 * (w * h) == 3 * width * height && w * h <= 3 * (w * h)) by (nonlinear_arith)
        requires
            w == width,
            h == height,
    ;
    let wh: usize = w * h;
    let size: usize = 3 * wh;
    let encoded = if rgb.len() == size {
        encode_jpeg_rgb8(rgb.as_slice(), width, height, JPEG_QUALITY)
    } else {
        let blank: Vec<u8> = vec![0u8; size];
        assert(blank@ =~= image_pixels(rgb@, width, height));
        encode_jpeg_rgb8(blank.as_slice(), width, height, JPEG_QUALITY)
    };
    match encoded {
        Some(b) => b,
        None => rgb.clone(),
    }
}

/// A frame is encoded as a picture of its own width and height at quality
/// 60: a buffer that holds exactly one such picture is handed to the encoder
/// as it is, so each frame is encoded from its own pixels; a shorter buffer
/// is handed over as a black picture of that size. Where the encoder
/// refuses, the buffer itself is the result.
pub proof fn lemma_frame_encoded_as_is(rgb: Seq<u8>, other: Seq<u8>, width: u32, height: u32)
    ensures
        rgb.len() == 3 * width * height ==> compressed_frame(rgb, width, height) == match jpeg_rgb8(rgb, width, height, 60u8) {
            Some(b) => b,
            None => rgb,
        },
        rgb.len() < 3 * width * height ==> compressed_frame(rgb, width, height)
            == match jpeg_rgb8(Seq::new((3 * width * height) as nat, |i: int| 0u8), width, height, 60u8) {
                Some(b) => b,
                None => rgb,
            },
        rgb.len() == 3 * width * height && other.len() == 3 * width * height && rgb != other
            && jpeg_rgb8(rgb, width, height, 60u8) is Some && jpeg_rgb8(other, width, height, 60u8) is Some
            ==> compressed_frame(rgb, width, height) == jpeg_rgb8(rgb, width, height, 60u8).unwrap()
                && compressed_frame(other, width, height) == jpeg_rgb8(other, width, height, 60u8).unwrap(),
{
    assert(Seq::new((3 * width * height) as nat, |i: int| 0u8) =~= image_pixels(rgb, width, height)
        || rgb.len() == 3 * width * height);
}

/// The base64 digit for a value below 64, in the standard alphabet.
pub open spec fn base64_digit(v: int) -> char {
    if v < 26 {
        (65 + v) as char
    } else if v < 52 {
        (71 + v) as char
    } else if v < 62 {
        (v - 4) as char
    } else if v == 62 {
        '+'
    } else {
        '/'
    }
}

/// Standard base64 with padding (RFC 4648): each group of three bytes gives
/// four digits; a final group of one or two bytes is padded with `=`.
pub open spec fn base64_text(b: Seq<u8>) -> Seq<char>
    decreases b.len(),
{
    if b.len() == 0 {
        Seq::empty()
    } else if b.len() == 1 {
        seq![base64_digit((b[0] as int) / 4), base64_digit(((b[0] as int) % 4) * 16), '=', '=']
    } else if b.len() == 2 {
        seq![
            base64_digit((b[0] as int) / 4),
            base64_digit(((b[0] as int) % 4) * 16 + (b[1] as int) / 16),
            base64_digit(((b[1] as int) % 16) * 4),
            '=',
        ]
    } else {
        seq![
            base64_digit((b[0] as int) / 4),
            base64_digit(((b[0] as int) % 4) * 16 + (b[1] as int) / 16),
            base64_digit(((b[1] as int) % 16) * 4 + (b[2] as int) / 64),
            base64_digit((b[2] as int) % 64),
        ] + base64_text(b.subrange(3, b.len() as int))
    }
}

/// Encodes bytes as standard base64 with
/// `base64::engine::general_purpose::STANDARD`.
///
/// Trusted: the text is standard padded base64 (`base64_text`); the engine
/// panics where the length of the text overflows, which `requires` rules out.
#[verifier::external_body]
fn base64_standard(bytes: &[u8]) -> (r: String)
    requires
        bytes@.len() / 3 * 4 + 4 <= usize::MAX,
    ensures
        r@ == base64_text(bytes@),
{
    base64::Engine::encode(&base64::engine::general_purpose::STANDARD, bytes)
}

/// Encodes bytes as standard padded base64.
pub fn base64_encode(bytes: &[u8]) -> (r: String)
    requires
        bytes@.len() / 3 * 4 + 4 <= usize::MAX,
    ensures
        r@ == base64_text(bytes@),
{
    base64_standard(bytes)
}

/// A frame as the frontend receives it: its JPEG (or, where the encoder
/// refuses, its RGB bytes) in base64. Gives `None` exactly where those bytes
/// are too long for their base64 text to be measured in a `usize`.
pub fn encode_frame(rgb: &Vec<u8>, width: u32, height: u32) -> (r: Option<String>)
    requires
        3 * width * height <= usize::MAX,
        rgb@.len() <= 3 * width * height,
    ensures
        match r {
            Some(text) => text@ == base64_text(compressed_frame(rgb@, width, height)),
            None => compressed_frame(rgb@, width, height).len() / 3 * 4 + 4 > usize::MAX,
        },
        (width == 0 || height == 0 || width > 65535 || height > 65535) && rgb@.len() / 3 * 4 + 4 <= usize::MAX
            ==> (r matches Some(text) && text@ == base64_text(rgb@)),
{
    let jpeg = compress_to_jpeg(rgb, width, height);
    if jpeg.len() / 3 <= (usize::MAX - 4) / 4 {
        Some(base64_encode(jpeg.as_slice()))
    } else {
        None
    }
}

/// Whether the camera is capturing, and its status.
pub struct CameraControl {
    running: bool,
    status: CameraStatus,
}

impl CameraControl {
    /// Whether a capture is running.
    pub closed spec fn spec_running(&self) -> bool {
        self.running
    }

    /// The camera's status.
    pub closed spec fn spec_status(&self) -> CameraStatus {
        self.status
    }

    /// A camera that is idle.
    pub fn new() -> (r: CameraControl)
        ensures
            !r.spec_running(),
            r.spec_status() is Idle,
    {
        CameraControl { running: false, status: CameraStatus::Idle }
    }

    /// Starts a capture; a camera that is running refuses, and stays as it was.
    pub fn start(&mut self) -> (r: Result<(), String>)
        ensures
            old(self).spec_running() ==> {
                &&& r matches Err(m) && m@ == "Camera already running"@
                &&& final(self).spec_running()
                &&& final(self).spec_status() == old(self).spec_status()
            },
            !old(self).spec_running() ==> {
                &&& r is Ok
                &&& final(self).spec_running()
                &&& final(self).spec_status() is Running
            },
    {
        if self.running {
            return Err(String::from_str("Camera already running"));
        }
        self.running = true;
        self.status = CameraStatus::Starting;
        self.status = CameraStatus::Running;
        Ok(())
    }

    /// Stops the capture; a camera that is not running refuses, and stays as
    /// it was.
    pub fn stop(&mut self) -> (r: Result<(), String>)
        ensures
            old(self).spec_running() ==> {
                &&& r is Ok
                &&& !final(self).spec_running()
                &&& final(self).spec_status() is Stopped
            },
            !old(self).spec_running() ==> {
                &&& r matches Err(m) && m@ == "Camera not running"@
                &&& !final(self).spec_running()
                &&& final(self).spec_status() == old(self).spec_status()
            },
    {
        if !self.running {
            return Err(String::from_str("Camera not running"));
        }
        self.running = false;
        self.status = CameraStatus::Stopped;
        Ok(())
    }

    /// Whether a capture is running.
    pub fn is_running(&self) -> (r: bool)
        ensures
            r == self.spec_running(),
    {
        self.running
    }

    /// The camera's status.
    pub fn status(&self) -> (r: &CameraStatus)
        ensures
            *r == self.spec_status(),
    {
        &self.status
    }
}

/// Counts the frames sent within the current second.
pub struct FpsCounter {
    frames: u32,
}

impl FpsCounter {
    /// Frames counted in the current second.
    pub closed spec fn spec_frames(&self) -> u32 {
        self.frames
    }

    /// A counter at zero.
    pub fn new() -> (r: FpsCounter)
        ensures
            r.spec_frames() == 0,
    {
        FpsCounter { frames: 0 }
    }

    /// Counts one frame; where a second has passed since the count began,
    /// gives the count to publish as the rate and starts again from zero.
    pub fn tick(&mut self, second_elapsed: bool) -> (r: Option<u32>)
        requires
            old(self).spec_frames() < u32::MAX,
        ensures
            second_elapsed ==> r == Some((old(self).spec_frames() + 1) as u32) && final(self).spec_frames() == 0,
            !second_elapsed ==> r is None && final(self).spec_frames() == old(self).spec_frames() + 1,
    {
        self.frames = self.frames + 1;
        if second_elapsed {
            let count = self.frames;
            self.frames = 0;
            Some(count)
        } else {
            None
        }
    }

    /// Frames counted in the current second.
    pub fn frames(&self) -> (r: u32)
        ensures
            r == self.spec_frames(),
    {
        self.frames
    }
}

} // verus!
