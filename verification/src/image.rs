use crate::error::ErrorKind;
use crate::renderer::Renderer;
use std::collections::HashMap;
use vstd::prelude::*;

verus! {

broadcast use vstd::std_specs::hash::group_hash_axioms;

/// Opaque, renderer-independent handle to an image owned by an
/// [`ImageStore`]. Ids are never reused within one store.
#[derive(Copy, Clone, Debug, PartialEq, Eq, Hash, PartialOrd, Ord, Structural)]
pub struct ImageId(pub u64);

/// The pixel format an image is allocated with and a payload is encoded in.
#[derive(Copy, Clone, Debug, PartialEq, Eq, Structural)]
pub enum PixelFormat {
    /// Four bytes per pixel: red, green, blue, alpha.
    Rgba8,
    /// Three bytes per pixel: red, green, blue.
    Rgb8,
    /// One byte per pixel: gray level.
    Gray8,
}

impl PixelFormat {
    /// How many bytes one pixel of this format occupies.
    pub open spec fn spec_bytes_per_pixel(self) -> nat {
        match self {
            PixelFormat::Rgba8 => 4,
            PixelFormat::Rgb8 => 3,
            PixelFormat::Gray8 => 1,
        }
    }

    /// How many bytes one pixel of this format occupies.
    pub fn bytes_per_pixel(self) -> (bytes: usize)
        ensures
            bytes == self.spec_bytes_per_pixel(),
    {
        match self {
            PixelFormat::Rgba8 => 4,
            PixelFormat::Rgb8 => 3,
            PixelFormat::Gray8 => 1,
        }
    }
}

/// What an image looks like at allocation time: its dimensions in pixels
/// and its pixel format.
#[derive(Copy, Clone, Debug, PartialEq, Eq, Structural)]
pub struct ImageInfo {
    /// Width in pixels.
    pub width: usize,
    /// Height in pixels.
    pub height: usize,
    /// Pixel format of the allocated resource.
    pub format: PixelFormat,
}

/// A caller-supplied pixel payload for an image upload or partial update:
/// its own dimensions, format, and the raw bytes in row-major order.
#[derive(Clone, Debug)]
pub struct ImageSource {
    /// Pixel format the bytes are encoded in.
    pub format: PixelFormat,
    /// Width of the payload in pixels.
    pub width: usize,
    /// Height of the payload in pixels.
    pub height: usize,
    /// The pixel bytes, row-major, densely packed.
    pub pixels: Vec<u8>,
}

impl ImageSource {
    /// True when the byte payload has exactly the size the dimensions and
    /// format announce.
    pub open spec fn wf(self) -> bool {
        self.pixels@.len() == self.width * self.height * self.format.spec_bytes_per_pixel()
    }

    /// A payload from its parts, checked for consistency: the pixel bytes
    /// must have exactly `width * height` pixels of `format`.
    pub fn new(format: PixelFormat, width: usize, height: usize, pixels: Vec<u8>) -> (source:
        Option<Self>)
        ensures
            match source {
                Some(s) => {
                    &&& s == (ImageSource { format, width, height, pixels })
                    &&& s.wf()
                },
                None => pixels@.len() != width * height * format.spec_bytes_per_pixel(),
            },
    {
        let payload_len = pixels.len();
        match width.checked_mul(height) {
            Some(px) => match px.checked_mul(format.bytes_per_pixel()) {
                Some(len) => {
                    if len == payload_len {
                        Some(ImageSource { format, width, height, pixels })
                    } else {
                        None
                    }
                },
                None => None,
            },
            None => {
                proof {
                    assert(width * height * format.spec_bytes_per_pixel() >= width * height)
                        by (nonlinear_arith)
                        requires
                            width >= 0,
                            height >= 0,
                            format.spec_bytes_per_pixel() >= 1,
                    ;
                }
                None
            },
        }
    }
}

impl ImageInfo {
    /// The local validation an update must pass before anything is uploaded:
    /// the payload's format must equal the allocated format, and the updated
    /// region `(x, y)` to `(x + data.width, y + data.height)` must lie within
    /// the allocated bounds. Says exactly which error a violation surfaces.
    pub open spec fn spec_check_update(self, data: ImageSource, x: usize, y: usize) -> Result<
        (),
        ErrorKind,
    > {
        if data.format != self.format {
            Err(ErrorKind::ImageUpdateWithDifferentFormat)
        } else if x + data.width > self.width || y + data.height > self.height {
            Err(ErrorKind::ImageUpdateOutOfBounds)
        } else {
            Ok(())
        }
    }

    /// Validates an update of `data` at offset `(x, y)` against this image's
    /// allocated format and bounds, without touching any pixel data.
    pub fn check_update(&self, data: &ImageSource, x: usize, y: usize) -> (result: Result<
        (),
        ErrorKind,
    >)
        ensures
            result == self.spec_check_update(*data, x, y),
    {
        if data.format != self.format {
            Err(ErrorKind::ImageUpdateWithDifferentFormat)
        } else if data.width > self.width || x > self.width - data.width || data.height
            > self.height || y > self.height - data.height {
            Err(ErrorKind::ImageUpdateOutOfBounds)
        } else {
            Ok(())
        }
    }
}

/// An image filter a [`crate::renderer::CommandType::RenderFilteredImage`]
/// command composites over its target image.
#[derive(Copy, Clone, Debug, PartialEq, Eq, Structural)]
pub enum ImageFilter {
    /// Gaussian blur; `sigma` carries the bit pattern of the float standard
    /// deviation, passed through to the backend uninterpreted.
    GaussianBlur {
        /// Bits of the blur standard deviation.
        sigma: u32,
    },
}

/// Owner of the mapping from [`ImageId`] to the backend image resource and
/// the [`ImageInfo`] it was allocated with. The store is the single source
/// of truth for which ids are live: allocation reserves a fresh id and
/// delegates resource creation to the renderer, update validates bounds and
/// format locally before delegating, removal delegates then drops the entry.
pub struct ImageStore<T> {
    images: HashMap<u64, (ImageInfo, T)>,
    next_id: u64,
}

impl<T> View for ImageStore<T> {
    type V = Map<u64, ImageInfo>;

    /// The store abstractly: which ids are live, and with what allocation
    /// info. The backend resources themselves stay opaque.
    closed spec fn view(&self) -> Map<u64, ImageInfo> {
        self.images@.map_values(|entry: (ImageInfo, T)| entry.0)
    }
}

impl<T> ImageStore<T> {
    /// Internal validity: every live id lies below the allocation cursor,
    /// so the next allocated id is always fresh.
    pub closed spec fn wf(self) -> bool {
        forall|id: u64| #[trigger] self.images@.dom().contains(id) ==> id < self.next_id
    }

    /// An empty store: no id is live.
    pub fn new() -> (store: Self)
        ensures
            store.wf(),
            store@ =~= Map::<u64, ImageInfo>::empty(),
    {
        let store = ImageStore { images: HashMap::new(), next_id: 0 };
        proof {
            assert(store@ =~= Map::<u64, ImageInfo>::empty());
        }
        store
    }

    /// Reserves a fresh id and delegates resource creation to the renderer.
    /// On success the returned id was not live before and is now mapped to
    /// `info`; on failure (the backend's, or id exhaustion) the store is
    /// unchanged and the error propagates unchanged.
    pub fn alloc_image<R: Renderer<Image = T>>(&mut self, renderer: &mut R, info: ImageInfo) -> (result:
        Result<ImageId, ErrorKind>)
        requires
            old(self).wf(),
        ensures
            final(self).wf(),
            match result {
                Ok(id) => {
                    &&& !old(self)@.dom().contains(id.0)
                    &&& final(self)@ == old(self)@.insert(id.0, info)
                },
                Err(_) => *final(self) == *old(self),
            },
    {
        if self.next_id == u64::MAX {
            return Err(ErrorKind::GeneralError("image id space exhausted".to_owned()));
        }
        let image = match renderer.alloc_image(info) {
            Ok(image) => image,
            Err(error) => {
                return Err(error);
            },
        };
        let id = self.next_id;
        self.next_id = id + 1;
        self.images.insert(id, (info, image));
        proof {
            assert(self@ =~= old(self)@.insert(id, info));
        }
        Ok(ImageId(id))
    }

    /// Looks an id up; exactly the live ids succeed, and a dead id fails
    /// with the id-not-found error.
    pub fn info(&self, id: ImageId) -> (result: Result<ImageInfo, ErrorKind>)
        ensures
            match result {
                Ok(info) => self@.dom().contains(id.0) && info == self@[id.0],
                Err(error) => !self@.dom().contains(id.0) && error is ImageIdNotFound,
            },
    {
        match self.images.get(&id.0) {
            Some(entry) => Ok(entry.0),
            None => Err(ErrorKind::ImageIdNotFound),
        }
    }

    /// Borrows the backend resource of a live id.
    pub fn get(&self, id: ImageId) -> (resource: Option<&T>)
        ensures
            resource is Some <==> self@.dom().contains(id.0),
    {
        match self.images.get(&id.0) {
            Some(entry) => Some(&entry.1),
            None => None,
        }
    }

    /// Validates an update locally, then delegates the upload. A dead id, a
    /// format mismatch or an out-of-bounds region fails with its specific
    /// error before the renderer sees anything, so a rejected update uploads
    /// nothing, not even partially. The set of live ids and their infos are
    /// unchanged in every case.
    pub fn update<R: Renderer<Image = T>>(
        &mut self,
        renderer: &mut R,
        id: ImageId,
        data: &ImageSource,
        x: usize,
        y: usize,
    ) -> (result: Result<(), ErrorKind>)
        requires
            old(self).wf(),
        ensures
            final(self).wf(),
            final(self)@ == old(self)@,
            !old(self)@.dom().contains(id.0) ==> result == Err::<(), ErrorKind>(
                ErrorKind::ImageIdNotFound,
            ) && *final(renderer) == *old(renderer),
            old(self)@.dom().contains(id.0) ==> (old(self)@[id.0].spec_check_update(*data, x, y)
                matches Err(error) ==> result == Err::<(), ErrorKind>(error) && *final(renderer)
                == *old(renderer)),
    {
        let entry = self.images.remove(&id.0);
        match entry {
            None => {
                proof {
                    assert(self@ =~= old(self)@);
                }
                Err(ErrorKind::ImageIdNotFound)
            },
            Some((info, mut image)) => {
                let checked = info.check_update(data, x, y);
                let result = match checked {
                    Err(error) => Err(error),
                    Ok(()) => renderer.update_image(&mut image, data, x, y),
                };
                self.images.insert(id.0, (info, image));
                proof {
                    assert(self@ =~= old(self)@);
                }
                result
            },
        }
    }

    /// Delegates deletion of a live id's resource to the renderer, then
    /// drops the entry; deleting a dead id does nothing. Either way the id
    /// is not live afterwards and no other entry changes.
    pub fn remove<R: Renderer<Image = T>>(&mut self, renderer: &mut R, id: ImageId)
        requires
            old(self).wf(),
        ensures
            final(self).wf(),
            final(self)@ == old(self)@.remove(id.0),
            !final(self)@.dom().contains(id.0),
    {
        match self.images.remove(&id.0) {
            Some((_, image)) => {
                renderer.delete_image(image, id);
            },
            None => {},
        }
        proof {
            assert(self@ =~= old(self)@.remove(id.0));
        }
    }
}

/// Law: allocating a fresh image id and then immediately deleting that id
/// leaves the store's mapping exactly as it was, and in particular leaves no
/// entry for the returned id, so a subsequent lookup of it fails.
pub proof fn lemma_alloc_then_remove_roundtrip(m: Map<u64, ImageInfo>, id: u64, info: ImageInfo)
    requires
        !m.dom().contains(id),
    ensures
        m.insert(id, info).remove(id) == m,
        !m.insert(id, info).remove(id).dom().contains(id),
{
    assert(m.insert(id, info).remove(id) =~= m);
}

} // verus!
