//! Clipboard snapshots and the comparison between two of them.

use vstd::prelude::*;

verus! {

/// What the clipboard held at one instant.
#[derive(Debug, PartialEq, Eq)]
pub enum ClipboardSnapshot {
    /// Plain text.
    Text(String),
    /// A raster image, four bytes (RGBA) for each pixel, row by row.
    Image { width: u32, height: u32, pixels: Vec<u8> },
    /// Nothing could be read, or there was nothing to read.
    Absent,
}

/// The mathematical content of a [`ClipboardSnapshot`].
pub enum SnapshotView {
    Text(Seq<char>),
    Image { width: nat, height: nat, pixels: Seq<u8> },
    Absent,
}

impl View for ClipboardSnapshot {
    type V = SnapshotView;

    open spec fn view(&self) -> SnapshotView {
        match self {
            ClipboardSnapshot::Text(content) => SnapshotView::Text(content@),
            ClipboardSnapshot::Image { width, height, pixels } => SnapshotView::Image {
                width: *width as nat,
                height: *height as nat,
                pixels: pixels@,
            },
            ClipboardSnapshot::Absent => SnapshotView::Absent,
        }
    }
}

impl Clone for ClipboardSnapshot {
    fn clone(&self) -> (copy: ClipboardSnapshot)
        ensures
            copy@ == self@,
    {
        match self {
            ClipboardSnapshot::Text(content) => ClipboardSnapshot::Text(content.clone()),
            ClipboardSnapshot::Image { width, height, pixels } => ClipboardSnapshot::Image {
                width: *width,
                height: *height,
                pixels: pixels.clone(),
            },
            ClipboardSnapshot::Absent => ClipboardSnapshot::Absent,
        }
    }
}

/// The number of bytes an RGBA8 image of the given dimensions occupies.
pub open spec fn rgba_len(width: nat, height: nat) -> nat {
    width * height * 4
}

impl SnapshotView {
    /// An image carries exactly four bytes per pixel; text and absence are
    /// always valid.
    pub open spec fn is_valid(self) -> bool {
        self matches SnapshotView::Image { width, height, pixels } ==> pixels.len() == rgba_len(
            width,
            height,
        )
    }

    /// Whether there is content that could be sent to a sink.
    pub open spec fn is_present(self) -> bool {
        !(self is Absent)
    }
}

/// Whether `current` is content, and content that differs from `previous`.
///
/// Two texts differ when the strings differ. Two images differ when their
/// dimensions differ or their pixel bytes differ. Content always differs
/// from absence and from content of the other kind. Absence is never a
/// change: where nothing could be read, nothing has changed.
pub open spec fn snapshot_changed(previous: SnapshotView, current: SnapshotView) -> bool {
    match (previous, current) {
        (_, SnapshotView::Absent) => false,
        (SnapshotView::Text(a), SnapshotView::Text(b)) => a != b,
        (
            SnapshotView::Image { width: old_width, height: old_height, pixels: old_pixels },
            SnapshotView::Image { width: new_width, height: new_height, pixels: new_pixels },
        ) => old_width != new_width || old_height != new_height || old_pixels != new_pixels,
        _ => true,
    }
}

/// Byte-wise comparison of two buffers.
pub fn bytes_equal(a: &[u8], b: &[u8]) -> (same: bool)
    ensures
        same == (a@ == b@),
{
    if a.len() != b.len() {
        return false;
    }
    let mut i: usize = 0;
    while i < a.len()
        invariant
            a@.len() == b@.len(),
            i <= a@.len(),
            forall|j: int| 0 <= j < i ==> a@[j] == b@[j],
        decreases a@.len() - i,
    {
        if a[i] != b[i] {
            return false;
        }
        i += 1;
    }
    assert(a@ =~= b@);
    true
}

/// Whether two images differ: in their dimensions, or in any pixel byte.
pub fn image_changed(
    old_width: u32,
    old_height: u32,
    old_pixels: &[u8],
    new_width: u32,
    new_height: u32,
    new_pixels: &[u8],
) -> (changed: bool)
    ensures
        changed == (old_width != new_width || old_height != new_height || old_pixels@
            != new_pixels@),
{
    if old_height != new_height || old_width != new_width {
        true
    } else {
        !bytes_equal(old_pixels, new_pixels)
    }
}

impl ClipboardSnapshot {
    /// A text snapshot.
    pub fn text(content: String) -> (snapshot: ClipboardSnapshot)
        ensures
            snapshot@ == SnapshotView::Text(content@),
    {
        ClipboardSnapshot::Text(content)
    }

    /// The snapshot of a clipboard from which nothing could be read.
    pub fn absent() -> (snapshot: ClipboardSnapshot)
        ensures
            snapshot@ == SnapshotView::Absent,
    {
        ClipboardSnapshot::Absent
    }

    /// An image snapshot, provided that `pixels` holds exactly four bytes for
    /// each of the `width * height` pixels.
    pub fn image(width: u32, height: u32, pixels: Vec<u8>) -> (snapshot: Option<ClipboardSnapshot>)
        ensures
            snapshot is Some <==> pixels@.len() == rgba_len(width as nat, height as nat),
            snapshot matches Some(s) ==> s@ == (SnapshotView::Image {
                width: width as nat,
                height: height as nat,
                pixels: pixels@,
            }),
    {
        if rgba_len_matches(width, height, pixels.len()) {
            Some(ClipboardSnapshot::Image { width, height, pixels })
        } else {
            None
        }
    }

    /// The snapshot for an attempt to read text: the text where there was
    /// one, absence where the read failed or found none.
    pub fn from_text_read(read: Option<String>) -> (snapshot: ClipboardSnapshot)
        ensures
            snapshot@ == (match read {
                Some(content) => SnapshotView::Text(content@),
                None => SnapshotView::Absent,
            }),
    {
        match read {
            Some(content) => ClipboardSnapshot::Text(content),
            None => ClipboardSnapshot::Absent,
        }
    }

    /// The snapshot for an attempt to read an image, given as width, height
    /// and pixel bytes: the image as it was read, and absence where the read
    /// failed, found none, or found dimensions beyond 32 bits.
    pub fn from_image_read(read: Option<(usize, usize, Vec<u8>)>) -> (snapshot: ClipboardSnapshot)
        ensures
            snapshot@ == (match read {
                Some((width, height, pixels)) if width <= u32::MAX && height <= u32::MAX =>
                    SnapshotView::Image {
                    width: width as nat,
                    height: height as nat,
                    pixels: pixels@,
                },
                _ => SnapshotView::Absent,
            }),
    {
        match read {
            Some((width, height, pixels)) => {
                if width <= u32::MAX as usize && height <= u32::MAX as usize {
                    ClipboardSnapshot::Image { width: width as u32, height: height as u32, pixels }
                } else {
                    ClipboardSnapshot::Absent
                }
            },
            None => ClipboardSnapshot::Absent,
        }
    }

    /// Whether the snapshot is well formed, see [`SnapshotView::is_valid`].
    pub fn is_valid(&self) -> (valid: bool)
        ensures
            valid == self@.is_valid(),
    {
        match self {
            ClipboardSnapshot::Image { width, height, pixels } => rgba_len_matches(
                *width,
                *height,
                pixels.len(),
            ),
            _ => true,
        }
    }

    /// The change detector, see [`clipboard_image_changed`]: whether `self`,
    /// read now, is content that differs from `previous`.
    pub fn changed_from(&self, previous: &ClipboardSnapshot) -> (changed: bool)
        ensures
            changed == snapshot_changed(previous@, self@),
    {
        clipboard_image_changed(previous, self)
    }
}

/// The change detector: whether `new`, read now, is content that differs
/// from `old`, the content read before.
pub fn clipboard_image_changed(old: &ClipboardSnapshot, new: &ClipboardSnapshot) -> (changed: bool)
    ensures
        changed == snapshot_changed(old@, new@),
{
    match (old, new) {
        (_, ClipboardSnapshot::Absent) => false,
        (ClipboardSnapshot::Text(a), ClipboardSnapshot::Text(b)) => !(*a == *b),
        (
            ClipboardSnapshot::Image { width: old_width, height: old_height, pixels: old_pixels },
            ClipboardSnapshot::Image { width: new_width, height: new_height, pixels: new_pixels },
        ) => image_changed(
            *old_width,
            *old_height,
            old_pixels.as_slice(),
            *new_width,
            *new_height,
            new_pixels.as_slice(),
        ),
        _ => true,
    }
}

/// Whether a buffer of `len` bytes is exactly an RGBA8 image of the given
/// dimensions.
fn rgba_len_matches(width: u32, height: u32, len: usize) -> (matches: bool)
    ensures
        matches == (len == rgba_len(width as nat, height as nat)),
{
    let pixel_count: u64 = mul_dimensions(width, height);
    let quarter: u64 = 0x4000_0000_0000_0000;
    if pixel_count >= quarter {
        // four bytes per pixel would not fit in 64 bits, let alone in memory
        false
    } else {
        let expected: u64 = pixel_count * 4;
        len as u64 == expected
    }
}

/// The number of pixels of an image.
fn mul_dimensions(width: u32, height: u32) -> (product: u64)
    ensures
        product == width * height,
{
    assert(width * height <= 0xffff_ffff * 0xffff_ffff) by (nonlinear_arith)
        requires
            width <= 0xffff_ffff,
            height <= 0xffff_ffff,
    ;
    (width as u64) * (height as u64)
}

/// Two texts count as changed when they differ, and a text does not count
/// as changed against itself.
pub proof fn law_text_changed(a: Seq<char>, b: Seq<char>)
    ensures
        a != b ==> snapshot_changed(SnapshotView::Text(a), SnapshotView::Text(b)),
        !snapshot_changed(SnapshotView::Text(a), SnapshotView::Text(a)),
{
}

/// Two images of the same dimensions that differ in one pixel byte, and in
/// no other, count as changed.
pub proof fn law_pixel_changed(
    width: nat,
    height: nat,
    old_pixels: Seq<u8>,
    new_pixels: Seq<u8>,
    at: int,
)
    requires
        old_pixels.len() == rgba_len(width, height),
        new_pixels.len() == rgba_len(width, height),
        0 <= at < old_pixels.len(),
        old_pixels[at] != new_pixels[at],
        forall|j: int| 0 <= j < old_pixels.len() && j != at ==> old_pixels[j] == new_pixels[j],
    ensures
        snapshot_changed(
            SnapshotView::Image { width, height, pixels: old_pixels },
            SnapshotView::Image { width, height, pixels: new_pixels },
        ),
{
}

/// Two images with the same dimensions and the same pixel bytes do not count
/// as changed.
pub proof fn law_same_image_unchanged(
    width: nat,
    height: nat,
    old_pixels: Seq<u8>,
    new_pixels: Seq<u8>,
)
    requires
        old_pixels.len() == new_pixels.len(),
        forall|j: int| 0 <= j < old_pixels.len() ==> old_pixels[j] == new_pixels[j],
    ensures
        !snapshot_changed(
            SnapshotView::Image { width, height, pixels: old_pixels },
            SnapshotView::Image { width, height, pixels: new_pixels },
        ),
{
    assert(old_pixels =~= new_pixels);
}

/// What was read counts as changed exactly when it is content, and not the
/// content seen before.
pub proof fn law_changed_is_inequality(previous: SnapshotView, current: SnapshotView)
    ensures
        snapshot_changed(previous, current) <==> current.is_present() && previous != current,
{
}

/// Absence never counts as a change, and content after absence always
/// does.
pub proof fn law_absence_is_no_change(previous: SnapshotView, current: SnapshotView)
    ensures
        !snapshot_changed(previous, SnapshotView::Absent),
        current.is_present() ==> snapshot_changed(SnapshotView::Absent, current),
{
}

} // verus!
