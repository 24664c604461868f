//! Shared textures of Windows, as far as a Vulkan device can export them.

use vstd::prelude::*;

use crate::text::same_text;

verus! {

/// Everything the consumer needs to import a shared texture: the format and the
/// layout are in the resource itself.
#[derive(Clone, Copy, Debug, PartialEq, Eq, Structural)]
pub struct SharedTextureInfo {
    pub width: u32,
    pub height: u32,
}

/// What is told of an exported texture.
pub type ExportInfo = SharedTextureInfo;

/// What a texture is exported as: a handle, as a number.
pub type ExportHandle = i64;

/// The geometry of a texture of at least one by one pixels.
pub open spec fn texture_info(width: u32, height: u32) -> SharedTextureInfo {
    SharedTextureInfo {
        width: if width < 1 {
            1
        } else {
            width
        },
        height: if height < 1 {
            1
        } else {
            height
        },
    }
}

/// The geometry of a texture.
pub fn shared_texture_info(width: u32, height: u32) -> (info: SharedTextureInfo)
    ensures
        info == texture_info(width, height),
{
    SharedTextureInfo {
        width: if width < 1 {
            1
        } else {
            width
        },
        height: if height < 1 {
            1
        } else {
            height
        },
    }
}

/// The handle that came back for a shared texture is none.
#[derive(Clone, Copy, Debug, PartialEq, Eq, Structural)]
pub struct NullHandle;

/// What a consumer is told of a texture that was shared under a handle.
pub open spec fn shared_under(handle: ExportHandle, width: u32, height: u32) -> Option<
    SharedTextureInfo,
> {
    if handle == 0 {
        None
    } else {
        Some(texture_info(width, height))
    }
}

/// What to tell the consumer of a shared texture, given the handle that the driver
/// answered with.
pub fn shared_texture(handle: ExportHandle, width: u32, height: u32) -> (result: Result<
    SharedTextureInfo,
    NullHandle,
>)
    ensures
        match result {
            Ok(info) => shared_under(handle, width, height) == Some(info),
            Err(_) => shared_under(handle, width, height) is None,
        },
{
    if handle == 0 {
        return Err(NullHandle);
    }
    Ok(shared_texture_info(width, height))
}

/// Gives the text of `ash::khr::external_memory_win32::NAME`.
#[verifier::external_body]
fn export_extension() -> (name: String)
    ensures
        name@ == "VK_KHR_external_memory_win32"@,
{
    ash::khr::external_memory_win32::NAME.to_string_lossy().into_owned()
}

/// Whether an extension is among others.
pub open spec fn offers(extensions: Seq<String>, name: Seq<char>) -> bool {
    exists|i: int| 0 <= i < extensions.len() && #[trigger] extensions[i]@ == name
}

fn has_extension(extensions: &Vec<String>, name: &str) -> (found: bool)
    ensures
        found == offers(extensions@, name@),
{
    let mut i: usize = 0;
    while i < extensions.len()
        invariant
            i <= extensions@.len(),
            forall|j: int| 0 <= j < i ==> #[trigger] extensions@[j]@ != name@,
        decreases extensions@.len() - i,
    {
        if same_text(extensions[i].as_str(), name) {
            assert(extensions@[i as int]@ == name@);
            return true;
        }
        i += 1;
    }
    false
}

/// Whether an adapter that offers these extensions can export shared handles.
pub open spec fn exports(extensions: Seq<String>) -> bool {
    offers(extensions, "VK_KHR_external_memory_win32"@)
}

/// The first adapter that can export.
pub open spec fn is_selected(adapters: Seq<Vec<String>>, index: Option<usize>) -> bool {
    match index {
        Some(index) => {
            &&& index < adapters.len()
            &&& exports(adapters[index as int]@)
            &&& forall|i: int| 0 <= i < index ==> !exports(#[trigger] adapters[i]@)
        },
        None => forall|i: int| 0 <= i < adapters.len() ==> !exports(#[trigger] adapters[i]@),
    }
}

/// The first adapter that can export shared handles, each given by the extensions it
/// offers. The fastest adapter may be one that cannot, so it is not preferred.
pub fn select_exportable_adapter(adapters: &Vec<Vec<String>>) -> (index: Option<usize>)
    ensures
        is_selected(adapters@, index),
{
    let name = export_extension();
    let mut i: usize = 0;
    while i < adapters.len()
        invariant
            i <= adapters@.len(),
            name@ == "VK_KHR_external_memory_win32"@,
            forall|j: int| 0 <= j < i ==> !exports(#[trigger] adapters@[j]@),
        decreases adapters@.len() - i,
    {
        if has_extension(&adapters[i], name.as_str()) {
            return Some(i);
        }
        i += 1;
    }
    None
}

/// A texture is as large as was asked for, but never empty.
pub proof fn a_texture_is_never_empty(width: u32, height: u32)
    ensures
        texture_info(width, height).width >= 1,
        texture_info(width, height).height >= 1,
        width >= 1 ==> texture_info(width, height).width == width,
        height >= 1 ==> texture_info(width, height).height == height,
        width == 0 ==> texture_info(width, height).width == 1,
        height == 0 ==> texture_info(width, height).height == 1,
{
}

/// A null handle is no texture; any other is told of with the texture's size.
pub proof fn only_a_null_handle_is_no_texture(handle: ExportHandle, width: u32, height: u32)
    ensures
        shared_under(handle, width, height) is None <==> handle == 0,
        shared_under(handle, width, height) matches Some(info) ==> {
            &&& info.width >= width && info.height >= height
            &&& width >= 1 ==> info.width == width
            &&& height >= 1 ==> info.height == height
        },
{
}

/// Wherever an adapter offers the extension that exports handles, one is selected: it offers
/// that, too, and none that does comes before it.
pub proof fn the_first_exporting_adapter_is_selected(
    adapters: Seq<Vec<String>>,
    index: Option<usize>,
    other: int,
    extension: int,
)
    requires
        is_selected(adapters, index),
        0 <= other < adapters.len(),
        0 <= extension < adapters[other]@.len(),
        adapters[other]@[extension]@ == "VK_KHR_external_memory_win32"@,
    ensures
        index matches Some(index) && index <= other && exists|i: int|
            0 <= i < adapters[index as int]@.len() && #[trigger] adapters[index as int]@[i]@
                == "VK_KHR_external_memory_win32"@,
{
    assert(exports(adapters[other]@));
}

} // verus!
