//! Images on the GPU, and the copies that bring texels into them.
//!
//! Callers describe rectangles with the origin in the top-left corner and `y`
//! growing downwards. The driver addresses the rows of a copy from the other
//! end, so a transfer mirrors its rectangle vertically before it names the
//! destination.

use vstd::prelude::*;
use vstd::layout::size_of;
use crate::binding::{Bind, BindGroupEntry, BindingResource};
use crate::buffers::frame::Framebuffer;
use crate::buffers::{BufferInitDescriptor, BufferUsages};
use crate::error::ContractError;
use crate::format::TextureFormat;
use crate::geometry::{Point, Rect, Size};

verus! {

/// The bytes of one texel in a buffer that is copied into an image.
pub const TEXEL_BYTES: u32 = 4;

/// The extent of an image or of a copy, in texels.
#[derive(Clone, Copy, Debug, PartialEq, Eq, Structural)]
pub struct Extent3d {
    pub width: u32,
    pub height: u32,
    pub depth_or_array_layers: u32,
}

/// A position inside an image, in texels.
#[derive(Clone, Copy, Debug, PartialEq, Eq, Structural)]
pub struct Origin3d {
    pub x: u32,
    pub y: u32,
    pub z: u32,
}

/// The uses that an image is allocated for.
#[derive(Clone, Copy, Debug, PartialEq, Eq, Structural)]
pub struct TextureUsages {
    pub copy_src: bool,
    pub copy_dst: bool,
    pub texture_binding: bool,
    pub storage_binding: bool,
    pub render_attachment: bool,
}

/// The number of dimensions of an image.
#[derive(Clone, Copy, Debug, PartialEq, Eq, Structural)]
pub enum TextureDimension {
    D1,
    D2,
    D3,
}

/// The part of each texel that a copy touches.
#[derive(Clone, Copy, Debug, PartialEq, Eq, Structural)]
pub enum TextureAspect {
    All,
    StencilOnly,
    DepthOnly,
}

/// What the driver is asked for when an image is allocated.
#[derive(Clone, Copy, Debug, PartialEq, Eq, Structural)]
pub struct TextureDescriptor {
    pub size: Extent3d,
    pub mip_level_count: u32,
    pub sample_count: u32,
    pub dimension: TextureDimension,
    pub format: TextureFormat,
    pub usage: TextureUsages,
}

/// A view of a whole image, as a render pass or a shader is given it.
#[derive(Clone, Copy, Debug, PartialEq, Eq, Structural)]
pub struct TextureView {
    pub format: TextureFormat,
    pub extent: Extent3d,
}

/// An image on the GPU, as the CPU knows it.
#[derive(Clone, Copy, Debug, PartialEq, Eq, Structural)]
pub struct Texture {
    /// The request that the image was allocated with.
    pub descriptor: TextureDescriptor,
    /// The view of the whole image.
    pub view: TextureView,
    pub extent: Extent3d,
    pub format: TextureFormat,
    pub size: Size<u32>,
}

/// How the rows of an image lie in a buffer.
#[derive(Clone, Copy, Debug, PartialEq, Eq)]
pub struct TexelCopyBufferLayout {
    /// Where the first row starts, in bytes from the start of the buffer.
    pub offset: u64,
    /// The distance in bytes from the start of one row to the next.
    pub bytes_per_row: Option<u32>,
    /// The number of rows that make up one layer.
    pub rows_per_image: Option<u32>,
}

/// The place in an image where a copy starts.
#[derive(Clone, Copy, Debug, PartialEq, Eq, Structural)]
pub struct TexelCopyTextureInfo {
    pub mip_level: u32,
    pub origin: Origin3d,
    pub aspect: TextureAspect,
}

/// A copy from a buffer into an image.
#[derive(Clone, Copy, Debug, PartialEq, Eq)]
pub struct BufferCopy {
    pub layout: TexelCopyBufferLayout,
    pub destination: TexelCopyTextureInfo,
    pub extent: Extent3d,
}

/// A copy from one region of an image to another region of the same image.
#[derive(Clone, Copy, Debug, PartialEq, Eq, Structural)]
pub struct TextureCopy {
    pub source: TexelCopyTextureInfo,
    pub destination: TexelCopyTextureInfo,
    pub extent: Extent3d,
}

/// Texels on their way into an image: the buffer that stages them and the
/// copy out of that buffer.
#[derive(Clone, Copy, Debug, PartialEq, Eq)]
pub struct Upload {
    pub staging: BufferInitDescriptor,
    pub copy: BufferCopy,
}

/// A buffer of one repeated value together with the upload that spreads it
/// over a whole image.
#[derive(Debug)]
pub struct Clear<T> {
    pub texels: Vec<T>,
    pub upload: Upload,
}

impl TextureUsages {
    /// No use at all.
    pub open spec fn spec_empty() -> TextureUsages {
        TextureUsages {
            copy_src: false,
            copy_dst: false,
            texture_binding: false,
            storage_binding: false,
            render_attachment: false,
        }
    }

    /// The uses that are in `self`, in `other` or in both.
    pub open spec fn spec_union(self, other: TextureUsages) -> TextureUsages {
        TextureUsages {
            copy_src: self.copy_src || other.copy_src,
            copy_dst: self.copy_dst || other.copy_dst,
            texture_binding: self.texture_binding || other.texture_binding,
            storage_binding: self.storage_binding || other.storage_binding,
            render_attachment: self.render_attachment || other.render_attachment,
        }
    }

    pub fn empty() -> (usage: TextureUsages)
        ensures
            usage == Self::spec_empty(),
    {
        TextureUsages {
            copy_src: false,
            copy_dst: false,
            texture_binding: false,
            storage_binding: false,
            render_attachment: false,
        }
    }

    pub fn union(self, other: TextureUsages) -> (usage: TextureUsages)
        ensures
            usage == self.spec_union(other),
    {
        TextureUsages {
            copy_src: self.copy_src || other.copy_src,
            copy_dst: self.copy_dst || other.copy_dst,
            texture_binding: self.texture_binding || other.texture_binding,
            storage_binding: self.storage_binding || other.storage_binding,
            render_attachment: self.render_attachment || other.render_attachment,
        }
    }
}

impl Extent3d {
    /// The extent of a flat image of the given size: one layer deep.
    pub open spec fn of(size: Size<u32>) -> Extent3d {
        Extent3d { width: size.width, height: size.height, depth_or_array_layers: 1 }
    }
}

/// The staging buffer for `len` texels of type `T`: a source of copies that
/// holds the texels byte for byte.
pub open spec fn staging_for<T>(len: nat) -> BufferInitDescriptor {
    BufferInitDescriptor {
        label: None,
        size: (len * size_of::<T>()) as usize,
        usage: BufferUsages::spec_copy_src(),
    }
}

impl Texture {
    /// The fields agree with each other and with the request that the image
    /// was allocated with: a flat image with one mip level.
    pub open spec fn wf(self) -> bool {
        &&& self.extent == Extent3d::of(self.size)
        &&& self.view == (TextureView { format: self.format, extent: self.extent })
        &&& self.descriptor.size == self.extent
        &&& self.descriptor.format == self.format
        &&& self.descriptor.mip_level_count == 1
        &&& self.descriptor.dimension == TextureDimension::D2
    }

    /// The copy that [`Texture::copy`] describes.
    pub open spec fn spec_copy(destination: Rect<u32>, bytes_per_row: u32, extent: Extent3d) -> BufferCopy {
        BufferCopy {
            layout: TexelCopyBufferLayout {
                offset: 0,
                bytes_per_row: Some(bytes_per_row),
                rows_per_image: Some(destination.size.height),
            },
            destination: TexelCopyTextureInfo {
                mip_level: 0,
                origin: Origin3d { x: destination.origin.x, y: destination.origin.y, z: 0 },
                aspect: TextureAspect::All,
            },
            extent,
        }
    }

    /// Describes the copy of a staged buffer into the rectangle `destination`
    /// of an image. `destination` is in the driver's coordinates. The buffer is
    /// read from its start, `bytes_per_row` bytes to a row, and `extent` texels
    /// are written to the first mip level.
    pub fn copy(destination: Rect<u32>, bytes_per_row: u32, extent: Extent3d) -> (copy: BufferCopy)
        ensures
            copy == Self::spec_copy(destination, bytes_per_row, extent),
    {
        BufferCopy {
            layout: TexelCopyBufferLayout {
                offset: 0,
                bytes_per_row: Some(bytes_per_row),
                rows_per_image: Some(destination.size.height),
            },
            destination: TexelCopyTextureInfo {
                mip_level: 0,
                origin: Origin3d { x: destination.origin.x, y: destination.origin.y, z: 0 },
                aspect: TextureAspect::All,
            },
            extent,
        }
    }

    /// What [`Texture::check_fill`] answers for a buffer of `len` texels.
    pub open spec fn fill_check(self, len: nat) -> Result<(), ContractError> {
        if self.size.spec_area() > u32::MAX || TEXEL_BYTES * self.size.width > u32::MAX {
            Err(ContractError::Arithmetic)
        } else if len < self.size.spec_area() {
            Err(ContractError::TexelBufferTooShort)
        } else {
            Ok(())
        }
    }

    /// The copy of a fill: the whole extent of the image from its first
    /// texel, with rows of four bytes to the texel.
    pub open spec fn fill_copy(self) -> BufferCopy {
        Self::spec_copy(
            Rect { origin: Point { x: 0, y: 0 }, size: self.size },
            (TEXEL_BYTES * self.size.width) as u32,
            self.extent,
        )
    }

    /// Decides whether a buffer of `len` texels can fill the image: it must
    /// hold at least one texel for each texel of the image.
    pub fn check_fill(&self, len: usize) -> (checked: Result<(), ContractError>)
        ensures
            checked == self.fill_check(len as nat),
    {
        if !self.size.area_fits() || self.size.width.checked_mul(TEXEL_BYTES).is_none() {
            return Err(ContractError::Arithmetic);
        }
        let area: u32 = self.size.area();
        if len < area as usize {
            Err(ContractError::TexelBufferTooShort)
        } else {
            Ok(())
        }
    }

    /// Fills the whole image from `texels`, which are read row by row from the
    /// first one on.
    pub fn fill<T>(texture: &Texture, texels: &[T]) -> (upload: Upload)
        requires
            texture.fill_check(texels@.len()) is Ok,
        ensures
            upload.staging == staging_for::<T>(texels@.len()),
            upload.staging.size == texels@.len() * size_of::<T>(),
            upload.copy == texture.fill_copy(),
    {
        let staging = stage(texels);
        let pitch: u32 = TEXEL_BYTES * texture.size.width;
        let whole = Rect::new(Point::new(0u32, 0u32), texture.size);
        Upload { staging, copy: Self::copy(whole, pitch, texture.extent) }
    }

    /// What [`Texture::check_clear`] answers for values of type `T`. One
    /// value is written out for each texel of the image. The bytes of these
    /// values are then read as texels of four bytes: they must make up whole
    /// texels, and at least as many as the image has.
    pub open spec fn clear_check<T>(self) -> Result<(), ContractError> {
        let bytes = self.size.spec_area() * size_of::<T>();
        if self.fill_check(self.size.spec_area() as nat) is Err || bytes > usize::MAX {
            Err(ContractError::Arithmetic)
        } else if bytes % (TEXEL_BYTES as int) != 0 {
            Err(ContractError::MisalignedTexels)
        } else if bytes / (TEXEL_BYTES as int) < self.size.spec_area() {
            Err(ContractError::TexelBufferTooShort)
        } else {
            Ok(())
        }
    }

    /// Decides whether the image can be cleared with values of type `T`: the
    /// image must be small enough to be filled, and the values for all of its
    /// texels must make up whole texels of four bytes, one at least for each
    /// texel of the image.
    pub fn check_clear<T>(&self) -> (checked: Result<(), ContractError>)
        ensures
            checked == self.clear_check::<T>(),
    {
        if !self.size.area_fits() {
            return Err(ContractError::Arithmetic);
        }
        let area: usize = self.size.area() as usize;
        if self.check_fill(area).is_err() {
            return Err(ContractError::Arithmetic);
        }
        match area.checked_mul(core::mem::size_of::<T>()) {
            None => Err(ContractError::Arithmetic),
            Some(bytes) => {
                if bytes % 4 != 0 {
                    Err(ContractError::MisalignedTexels)
                } else if bytes / 4 < area {
                    Err(ContractError::TexelBufferTooShort)
                } else {
                    Ok(())
                }
            },
        }
    }

    /// Fills the whole image with one value. The value is written out once for
    /// each texel of the image and the buffer is then uploaded as by
    /// [`Texture::fill`].
    pub fn clear<T: Copy>(texture: &Texture, value: T) -> (clear: Clear<T>)
        requires
            texture.clear_check::<T>() is Ok,
        ensures
            clear.texels@ == Seq::new(texture.size.spec_area() as nat, |i: int| value),
            clear.upload.staging == staging_for::<T>(texture.size.spec_area() as nat),
            clear.upload.staging.size == texture.size.spec_area() * size_of::<T>(),
            clear.upload.copy == texture.fill_copy(),
    {
        let capacity: usize = texture.size.area() as usize;
        let mut texels: Vec<T> = Vec::with_capacity(capacity);
        let mut i: usize = 0;
        while i < capacity
            invariant
                i <= capacity,
                texels@.len() == i,
                forall|j: int| 0 <= j < i ==> texels@[j] == value,
            decreases capacity - i,
        {
            texels.push(value);
            i += 1;
        }
        assert(texels@ =~= Seq::new(texture.size.spec_area() as nat, |i: int| value));
        let upload = Self::fill(texture, texels.as_slice());
        Clear { texels, upload }
    }

    /// Where a transfer into `rect` lands: the normal form of `rect`, mirrored
    /// vertically. The row that the copy starts at is counted from the other
    /// end of the image, as far from it as the lower edge of the rectangle is
    /// from the upper edge of the image.
    pub open spec fn transfer_destination(self, rect: Rect<i32>) -> Rect<u32> {
        let normal = rect.spec_normalized();
        Rect {
            origin: Point {
                x: normal.origin.x as u32,
                y: (self.size.height - (normal.origin.y + normal.size.height)) as u32,
            },
            size: Size { width: normal.size.width as u32, height: normal.size.height as u32 },
        }
    }

    /// The row pitch of a transfer: the texels of the buffer are dealt out
    /// evenly to the rows of the destination, four bytes to the texel.
    pub open spec fn transfer_pitch(len: nat, rows: nat) -> int {
        (len as int / rows as int) * TEXEL_BYTES
    }

    /// What [`Texture::check_transfer`] answers for a buffer of `len` texels
    /// and the rectangle `rect`.
    pub open spec fn transfer_check(self, len: nat, rect: Rect<i32>) -> Result<(), ContractError> {
        let normal = rect.spec_normalized();
        let lower = normal.origin.y + normal.size.height;
        if !rect.normalizable() || normal.signed_area() > u32::MAX || self.size.spec_area()
            > u32::MAX {
            Err(ContractError::Arithmetic)
        } else if normal.signed_area() > self.size.spec_area() {
            Err(ContractError::TransferTooLarge)
        } else if normal.origin.x < 0 || lower < 0 || lower > self.size.height {
            Err(ContractError::Arithmetic)
        } else if normal.size.height == 0 || len > u32::MAX || Self::transfer_pitch(
            len,
            normal.size.height as nat,
        ) > u32::MAX {
            Err(ContractError::Arithmetic)
        } else {
            Ok(())
        }
    }

    /// The copy of a transfer.
    pub open spec fn transfer_copy(self, len: nat, rect: Rect<i32>) -> BufferCopy {
        let destination = self.transfer_destination(rect);
        Self::spec_copy(
            destination,
            Self::transfer_pitch(len, destination.size.height as nat) as u32,
            Extent3d::of(destination.size),
        )
    }

    /// Decides whether `len` texels can be transferred into `rect`: the
    /// rectangle must cover at least one row and no more texels than the image
    /// has, and its lower edge must lie inside the image. A rectangle that
    /// covers too many texels is refused as too large wherever it lies.
    pub fn check_transfer(&self, len: usize, rect: Rect<i32>) -> (checked: Result<(), ContractError>)
        ensures
            checked == self.transfer_check(len as nat, rect),
    {
        if !rect.is_normalizable() {
            return Err(ContractError::Arithmetic);
        }
        let normal = rect.normalized();
        let covered = Size::new(normal.size.width as u32, normal.size.height as u32);
        if !covered.area_fits() || !self.size.area_fits() {
            return Err(ContractError::Arithmetic);
        }
        if covered.area() > self.size.area() {
            return Err(ContractError::TransferTooLarge);
        }
        let lower: i32 = normal.origin.y + normal.size.height;
        if normal.origin.x < 0 || lower < 0 || lower as u32 > self.size.height {
            return Err(ContractError::Arithmetic);
        }
        if covered.height == 0 || len > u32::MAX as usize {
            return Err(ContractError::Arithmetic);
        }
        let per_row: u32 = len as u32 / covered.height;
        if per_row.checked_mul(TEXEL_BYTES).is_none() {
            return Err(ContractError::Arithmetic);
        }
        Ok(())
    }

    /// Copies `texels` into the rectangle `rect` of the image. The rectangle
    /// may be described from any of its corners. The texels are dealt out
    /// evenly to the rows of the rectangle; a buffer that holds a whole number
    /// of rows is used up exactly.
    pub fn transfer<T>(texture: &Texture, texels: &[T], rect: Rect<i32>) -> (upload: Upload)
        requires
            texture.transfer_check(texels@.len(), rect) is Ok,
        ensures
            upload.staging == staging_for::<T>(texels@.len()),
            upload.staging.size == texels@.len() * size_of::<T>(),
            upload.copy == texture.transfer_copy(texels@.len(), rect),
            upload.copy.extent.width * upload.copy.extent.height <= texture.size.spec_area(),
            upload.copy.destination.origin.y + upload.copy.extent.height
                == texture.size.height - rect.spec_normalized().origin.y,
            texels@.len() as int % upload.copy.extent.height as int == 0
                ==> upload.copy.layout.bytes_per_row->Some_0 * upload.copy.extent.height
                == TEXEL_BYTES * texels@.len(),
    {
        let normal = rect.normalized();
        let lower: i32 = normal.origin.y + normal.size.height;
        let covered = Size::new(normal.size.width as u32, normal.size.height as u32);
        let corner = Point::new(normal.origin.x as u32, texture.size.height - lower as u32);
        let staging = stage(texels);
        let extent = Extent3d { width: covered.width, height: covered.height, depth_or_array_layers: 1 };
        let pitch: u32 = texels.len() as u32 / covered.height * TEXEL_BYTES;
        proof {
            lemma_whole_rows(texels@.len() as int, covered.height as int);
        }
        Upload { staging, copy: Self::copy(Rect::new(corner, covered), pitch, extent) }
    }

    /// What [`Texture::check_blit`] answers for the two rectangles.
    pub open spec fn blit_check(src: Rect<u32>, dst: Rect<u32>) -> Result<(), ContractError> {
        if src.size.spec_area() > u32::MAX || dst.size.spec_area() > u32::MAX {
            Err(ContractError::Arithmetic)
        } else if src.size.spec_area() == dst.size.spec_area() {
            Err(ContractError::BlitSameArea)
        } else {
            Ok(())
        }
    }

    /// The copy of a blit: as many texels as the source rectangle has, from
    /// its origin to the origin of the destination. No row is mirrored.
    pub open spec fn blit_copy(src: Rect<u32>, dst: Rect<u32>) -> TextureCopy {
        TextureCopy {
            source: TexelCopyTextureInfo {
                mip_level: 0,
                origin: Origin3d { x: src.origin.x, y: src.origin.y, z: 0 },
                aspect: TextureAspect::All,
            },
            destination: TexelCopyTextureInfo {
                mip_level: 0,
                origin: Origin3d { x: dst.origin.x, y: dst.origin.y, z: 0 },
                aspect: TextureAspect::All,
            },
            extent: Extent3d::of(src.size),
        }
    }

    /// Decides whether a blit from `src` to `dst` is accepted. As the rule
    /// stands, two rectangles of the same area are refused.
    pub fn check_blit(src: Rect<u32>, dst: Rect<u32>) -> (checked: Result<(), ContractError>)
        ensures
            checked == Self::blit_check(src, dst),
    {
        if !src.size.area_fits() || !dst.size.area_fits() {
            return Err(ContractError::Arithmetic);
        }
        if src.size.area() == dst.size.area() {
            Err(ContractError::BlitSameArea)
        } else {
            Ok(())
        }
    }

    /// Copies the region `src` of the image onto the region that starts at the
    /// origin of `dst`, inside the same image.
    pub fn blit(&self, src: Rect<u32>, dst: Rect<u32>) -> (copy: TextureCopy)
        requires
            Self::blit_check(src, dst) is Ok,
        ensures
            copy == Self::blit_copy(src, dst),
    {
        TextureCopy {
            source: TexelCopyTextureInfo {
                mip_level: 0,
                origin: Origin3d { x: src.origin.x, y: src.origin.y, z: 0 },
                aspect: TextureAspect::All,
            },
            destination: TexelCopyTextureInfo {
                mip_level: 0,
                origin: Origin3d { x: dst.origin.x, y: dst.origin.y, z: 0 },
                aspect: TextureAspect::All,
            },
            extent: Extent3d { width: src.size.width, height: src.size.height, depth_or_array_layers: 1 },
        }
    }
}

impl Bind for Texture {
    /// A view of the image.
    open spec fn resource(&self) -> BindingResource {
        BindingResource::TextureView
    }

    fn binding(&self, index: u32) -> (entry: BindGroupEntry) {
        BindGroupEntry { binding: index, resource: BindingResource::TextureView }
    }
}

impl Texture {
    /// The color image of a framebuffer, without its depth buffer.
    pub fn from(fb: Framebuffer) -> (texture: Self)
        ensures
            texture == fb.texture,
    {
        fb.texture
    }
}

/// Describes the buffer that stages `texels` for a copy.
fn stage<T>(texels: &[T]) -> (staging: BufferInitDescriptor)
    ensures
        staging == staging_for::<T>(texels@.len()),
        staging.size == texels@.len() * size_of::<T>(),
{
    broadcast use vstd::layout::layout_of_slices;

    BufferInitDescriptor {
        label: None,
        size: core::mem::size_of_val(texels),
        usage: BufferUsages::copy_src(),
    }
}

/// Texels that make up a whole number of rows are all of them dealt out.
proof fn lemma_whole_rows(len: int, rows: int)
    requires
        0 <= len,
        0 < rows,
    ensures
        len % rows == 0 ==> (len / rows) * TEXEL_BYTES * rows == TEXEL_BYTES * len,
{
    if len % rows == 0 {
        assert(len == rows * (len / rows) + len % rows) by {
            vstd::arithmetic::div_mod::lemma_fundamental_div_mod(len, rows);
        }
        assert((len / rows) * TEXEL_BYTES * rows == TEXEL_BYTES * (rows * (len / rows)))
            by (nonlinear_arith);
    }
}

/// A buffer with exactly one texel for each texel of the image fills it, and a
/// buffer that is shorter by any number of texels is refused. The image must
/// be small enough for its area and its row pitch to be held in 32 bits.
pub proof fn lemma_fill_boundary(texture: Texture, len: nat)
    requires
        texture.size.spec_area() <= u32::MAX,
        TEXEL_BYTES * texture.size.width <= u32::MAX,
    ensures
        len == texture.size.spec_area() ==> texture.fill_check(len) is Ok,
        len < texture.size.spec_area() ==> texture.fill_check(len) == Err::<(), ContractError>(
            ContractError::TexelBufferTooShort,
        ),
        texture.fill_check(len) is Ok <==> len >= texture.size.spec_area(),
{
}

/// A buffer with fewer texels than the image has never fills it, however
/// large the image is.
pub proof fn lemma_fill_short_refused(texture: Texture, len: nat)
    requires
        len < texture.size.spec_area(),
    ensures
        texture.fill_check(len) is Err,
{
}

/// A blit between two rectangles that cover the same number of texels is
/// always refused, wherever the rectangles lie.
pub proof fn lemma_blit_same_area(src: Rect<u32>, dst: Rect<u32>)
    requires
        src.size.spec_area() == dst.size.spec_area(),
    ensures
        Texture::blit_check(src, dst) is Err,
        src.size.spec_area() <= u32::MAX ==> Texture::blit_check(src, dst) == Err::<(), ContractError>(
            ContractError::BlitSameArea,
        ),
{
}

/// A transfer is accepted only if its rectangle covers no more texels than
/// the image has, and is refused as too large exactly when the rectangle can
/// be mirrored but covers more.
pub proof fn lemma_transfer_area(texture: Texture, len: nat, rect: Rect<i32>)
    ensures
        texture.transfer_check(len, rect) is Ok ==> rect.spec_normalized().signed_area()
            <= texture.size.spec_area(),
        texture.transfer_check(len, rect) is Ok ==> texture.transfer_destination(rect).size.spec_area()
            == crate::geometry::abs(rect.signed_area()),
        texture.transfer_check(len, rect) == Err::<(), ContractError>(ContractError::TransferTooLarge)
            <==> (rect.normalizable() && texture.size.spec_area() < rect.spec_normalized().signed_area()
            <= u32::MAX),
{
    if rect.normalizable() {
        crate::geometry::lemma_normalized_area(rect);
    }
}

/// A transfer does not depend on the corner that its rectangle is described
/// from: described from another corner, the rectangle is accepted or refused
/// as before, for the same reason, and the same copy is made.
pub proof fn lemma_transfer_corner_order(texture: Texture, len: nat, rect: Rect<i32>, x: bool, y: bool)
    requires
        rect.normalizable(),
    ensures
        texture.transfer_check(len, rect.described_from(x, y)) == texture.transfer_check(len, rect),
        texture.transfer_copy(len, rect.described_from(x, y)) == texture.transfer_copy(len, rect),
{
    crate::geometry::lemma_normalized_corner_order(rect, x, y);
}

/// What a transfer copies is the normal form of its rectangle: the extent is
/// the absolute size, which covers as many texels as the rectangle does, and
/// the copy starts at the smaller of the two horizontal coordinates.
pub proof fn lemma_transfer_extent(texture: Texture, len: nat, rect: Rect<i32>)
    requires
        texture.transfer_check(len, rect) is Ok,
    ensures
        ({
            let copy = texture.transfer_copy(len, rect);
            &&& copy.extent.width == crate::geometry::abs(rect.size.width as int)
            &&& copy.extent.height == crate::geometry::abs(rect.size.height as int)
            &&& copy.extent.depth_or_array_layers == 1
            &&& copy.extent.width * copy.extent.height == crate::geometry::abs(rect.signed_area())
            &&& copy.extent.width * copy.extent.height <= texture.size.spec_area()
            &&& copy.destination.origin.x == crate::geometry::min(
                rect.origin.x as int,
                rect.origin.x + rect.size.width,
            )
            &&& copy.layout.rows_per_image == Some(copy.extent.height)
        }),
{
    crate::geometry::lemma_normalized_area(rect);
}

/// Mirroring keeps a rectangle inside the image and keeps its distance to the
/// upper edge: a rectangle that lies inside the image lands inside it, as many
/// rows above the last row as it lay below the first.
pub proof fn lemma_transfer_mirror(texture: Texture, rect: Rect<i32>)
    requires
        rect.normalizable(),
        0 <= rect.spec_normalized().origin.x,
        0 <= rect.spec_normalized().origin.y,
        rect.spec_normalized().origin.x + rect.spec_normalized().size.width <= texture.size.width,
        rect.spec_normalized().origin.y + rect.spec_normalized().size.height <= texture.size.height,
    ensures
        ({
            let normal = rect.spec_normalized();
            let destination = texture.transfer_destination(rect);
            &&& destination.origin.x == normal.origin.x
            &&& destination.size.width == normal.size.width
            &&& destination.size.height == normal.size.height
            &&& destination.origin.x + destination.size.width <= texture.size.width
            &&& destination.origin.y + destination.size.height <= texture.size.height
            &&& destination.origin.y == texture.size.height - (normal.origin.y + normal.size.height)
            &&& texture.size.height - (destination.origin.y + destination.size.height)
                == normal.origin.y
        }),
{
}

} // verus!
