//! The decisions inside the filesystem callbacks: when a file is copied up
//! to the upper layer, how it is opened, how a lookup is answered, and
//! what removing a name does. The callbacks themselves (reading the
//! layers, replying to the kernel) are the caller's.
use vstd::prelude::*;

use super::types::LayerType;

verus! {

/// What an `open` call asks for, decoded from its flags.
#[derive(Debug, Clone, Copy, PartialEq, Eq, Structural)]
pub struct OpenRequest {
    /// The access mode is not read-only.
    pub wants_write: bool,
    /// `O_CREAT`.
    pub create: bool,
    /// `O_TRUNC`.
    pub truncate: bool,
    /// `O_APPEND`.
    pub append: bool,
}

/// How the file is to be opened.
#[derive(Debug, Clone, Copy, PartialEq, Eq, Structural)]
pub struct OpenPlan {
    pub read: bool,
    pub write: bool,
    pub create: bool,
    pub truncate: bool,
    pub append: bool,
}

/// Writing to a file of the lower layer copies it up first, except for a
/// passthrough path, which is written where it is.
pub fn needs_copy_up_on_open(layer: LayerType, is_passthrough: bool, wants_write: bool) -> (r: bool)
    ensures
        r == (layer == LayerType::Lower && wants_write && !is_passthrough),
{
    layer == LayerType::Lower && wants_write && !is_passthrough
}

/// How to open a file found in `layer`: the lower layer is read-only but
/// for passthrough paths; truncating and appending need write access.
pub fn open_plan(layer: LayerType, is_passthrough: bool, request: OpenRequest) -> (r: OpenPlan)
    ensures
        r.read,
        r.write == (layer == LayerType::Upper || is_passthrough),
        r.create == request.create,
        r.truncate == (r.write && request.truncate),
        r.append == (r.write && request.append),
{
    let write = match layer {
        LayerType::Lower => is_passthrough,
        LayerType::Upper => true,
    };
    OpenPlan {
        read: true,
        write,
        create: request.create,
        truncate: write && request.truncate,
        append: write && request.append,
    }
}

/// Which layer a name is looked up in, from what the caller found there:
/// nothing behind a whiteout; otherwise the upper layer shadows the lower
/// one.
pub fn lookup_layer(upper_whiteout: bool, upper_exists: bool, lower_exists: bool) -> (r: Option<
    LayerType,
>)
    ensures
        upper_whiteout ==> r is None,
        !upper_whiteout && upper_exists ==> r == Some(LayerType::Upper),
        !upper_whiteout && !upper_exists && lower_exists ==> r == Some(LayerType::Lower),
        !upper_whiteout && !upper_exists && !lower_exists ==> r is None,
{
    if upper_whiteout {
        None
    } else if upper_exists {
        Some(LayerType::Upper)
    } else if lower_exists {
        Some(LayerType::Lower)
    } else {
        None
    }
}

/// A cached inode still answers a lookup unless a whiteout has since hidden
/// it; passthrough paths ignore the upper layer and its whiteouts.
pub fn cached_lookup_valid(is_passthrough: bool, upper_whiteout: bool) -> (r: bool)
    ensures
        r == (is_passthrough || !upper_whiteout),
{
    is_passthrough || !upper_whiteout
}

/// What removing a name (unlink or rmdir) does to the file.
#[derive(Debug, Clone, Copy, PartialEq, Eq, Structural)]
pub enum RemoveAction {
    /// A passthrough path: remove it from the lower layer.
    RemoveFromLower,
    /// An upper-layer file still open: mark it deleted, to be collected
    /// when the last handle closes.
    MarkDeleted,
    /// An upper-layer file not open: delete it now.
    DeleteNow,
    /// A lower-layer file: hide it behind a whiteout.
    CreateWhiteout,
}

/// Chooses what removing a name does.
pub fn remove_action(is_passthrough: bool, layer: LayerType, has_open_handles: bool) -> (r:
    RemoveAction)
    ensures
        is_passthrough ==> r == RemoveAction::RemoveFromLower,
        !is_passthrough && layer == LayerType::Upper && has_open_handles ==> r
            == RemoveAction::MarkDeleted,
        !is_passthrough && layer == LayerType::Upper && !has_open_handles ==> r
            == RemoveAction::DeleteNow,
        !is_passthrough && layer == LayerType::Lower ==> r == RemoveAction::CreateWhiteout,
{
    if is_passthrough {
        RemoveAction::RemoveFromLower
    } else {
        match layer {
            LayerType::Upper => if has_open_handles {
                RemoveAction::MarkDeleted
            } else {
                RemoveAction::DeleteNow
            },
            LayerType::Lower => RemoveAction::CreateWhiteout,
        }
    }
}


/// The size of a file after writing `written` bytes at `offset`: it only
/// grows.
pub fn size_after_write(current: u64, offset: u64, written: u64) -> (r: u64)
    requires
        offset + written <= u64::MAX,
    ensures
        r == (if current >= offset + written {
            current
        } else {
            (offset + written) as u64
        }),
{
    let end = offset + written;
    if current >= end {
        current
    } else {
        end
    }
}

/// What a flush does: refresh the attributes of a file written in place
/// (upper layer or passthrough), and report a change of an upper-layer file.
#[derive(Debug, Clone, Copy, PartialEq, Eq, Structural)]
pub struct FlushPlan {
    pub refresh_attrs: bool,
    pub signal_change: bool,
}

/// Chooses what a flush does.
pub fn flush_plan(layer: LayerType, is_passthrough: bool) -> (r: FlushPlan)
    ensures
        r.refresh_attrs == (layer == LayerType::Upper || is_passthrough),
        r.signal_change == (layer == LayerType::Upper && !is_passthrough),
{
    FlushPlan {
        refresh_attrs: layer == LayerType::Upper || is_passthrough,
        signal_change: layer == LayerType::Upper && !is_passthrough,
    }
}

/// Where a new file is created: a passthrough path in the lower layer,
/// anything else in the upper layer.
pub fn create_layer(is_passthrough: bool) -> (r: LayerType)
    ensures
        is_passthrough ==> r == LayerType::Lower,
        !is_passthrough ==> r == LayerType::Upper,
{
    if is_passthrough {
        LayerType::Lower
    } else {
        LayerType::Upper
    }
}

/// The permission bits of a mode (setuid, setgid, sticky and `rwxrwxrwx`),
/// without the file type.
pub fn permission_bits(mode: u32) -> (r: u32)
    ensures
        r == mode & 0o7777u32,
{
    mode & 0o7777
}

/// Unlinking a file of the lower layer (not passthrough) is recorded as a
/// deletion.
pub fn unlink_records_deletion(layer: LayerType, is_passthrough: bool) -> (r: bool)
    ensures
        r == (layer == LayerType::Lower && !is_passthrough),
{
    layer == LayerType::Lower && !is_passthrough
}

/// How a rename is carried out.
#[derive(Debug, Clone, Copy, PartialEq, Eq, Structural)]
pub struct RenamePlan {
    /// Copy the source up first.
    pub copy_up: bool,
    /// The layer the rename happens in.
    pub layer: LayerType,
    /// Report both paths as changed.
    pub signal_change: bool,
}

/// A rename touching a passthrough path happens in the lower layer, without
/// copy-up and unreported; any other is copied up and happens in the upper
/// layer.
pub fn rename_plan(source_passthrough: bool, dest_passthrough: bool) -> (r: RenamePlan)
    ensures
        (source_passthrough || dest_passthrough) ==> r == (RenamePlan {
            copy_up: false,
            layer: LayerType::Lower,
            signal_change: false,
        }),
        !(source_passthrough || dest_passthrough) ==> r == (RenamePlan {
            copy_up: true,
            layer: LayerType::Upper,
            signal_change: true,
        }),
{
    if source_passthrough || dest_passthrough {
        RenamePlan { copy_up: false, layer: LayerType::Lower, signal_change: false }
    } else {
        RenamePlan { copy_up: true, layer: LayerType::Upper, signal_change: true }
    }
}

} // verus!
