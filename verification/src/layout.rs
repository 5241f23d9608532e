//! The storage layout of one asset: a directory named by the asset key,
//! holding the original bytes under `original/<file_name>` and one file
//! per rendition. The layout is produced as a plan — a sequence of write
//! actions — whose first action creates the directories, so that an
//! executor working in order satisfies the happens-before requirement.
//! An aliased rendition becomes a relative symbolic link to its source
//! rendition's file name in the same directory, keeping the tree portable.

use vstd::prelude::*;

use crate::cascade::{Cascade, ImageKind, RenditionSlot};
use crate::error::Error;
use crate::raster::jpeg_encodable;

verus! {

/// One filesystem action of the layout plan, relative to the storage root.
#[derive(Debug)]
pub enum WriteAction {
    /// Create `<key>/` and `<key>/original/`.
    CreateDirectories { key: String },
    /// Write the upload's bytes verbatim under `<key>/original/<file_name>`.
    WriteOriginal { key: String, file_name: String, bytes: Vec<u8> },
    /// Write an encoded rendition under `<key>/<file name of the slot>`.
    WriteRendition { key: String, slot: RenditionSlot, bytes: Vec<u8> },
    /// Create a symbolic link at `<key>/<file name of the slot>` whose
    /// target is the file name of the source slot, relative, in the same
    /// directory.
    LinkRendition { key: String, slot: RenditionSlot, source: RenditionSlot },
}

/// The file name of a rendition slot.
pub open spec fn spec_slot_file_name(slot: RenditionSlot) -> Seq<char> {
    match slot {
        RenditionSlot::Full => "full.jpg"@,
        RenditionSlot::Large => "large.jpg"@,
        RenditionSlot::Medium => "medium.jpg"@,
        RenditionSlot::Tiny => "tiny.jpg"@,
    }
}

/// The file name of a rendition slot, fixed per slot.
pub fn slot_file_name(slot: RenditionSlot) -> (result: &'static str)
    ensures
        result@ == spec_slot_file_name(slot),
{
    match slot {
        RenditionSlot::Full => "full.jpg",
        RenditionSlot::Large => "large.jpg",
        RenditionSlot::Medium => "medium.jpg",
        RenditionSlot::Tiny => "tiny.jpg",
    }
}

/// Whether an action stores the given slot of the given asset the way the
/// cascade decided: a rendition write when the slot was generated, and
/// otherwise a link whose source is the slot's immediate predecessor in
/// the chain — never `full` directly for the later slots.
pub open spec fn rendition_action_matches(
    action: WriteAction,
    key: Seq<char>,
    slot: RenditionSlot,
    generated: bool,
) -> bool {
    if generated {
        action matches WriteAction::WriteRendition {
            key: action_key,
            slot: action_slot,
            bytes: _,
        } && action_key@ == key && action_slot == slot
    } else {
        action matches WriteAction::LinkRendition {
            key: action_key,
            slot: action_slot,
            source,
        } && action_key@ == key && action_slot == slot && source == slot.predecessor()
    }
}

/// Whether every rendition the plan must encode fits a JPEG frame: the
/// full rendition always, and each derived rendition when it is generated
/// rather than aliased.
pub open spec fn plan_encodable(renditions: Cascade) -> bool {
    &&& jpeg_encodable(renditions.full.buffer().spec_width(), renditions.full.buffer().spec_height())
    &&& renditions.large.is_generated() ==> jpeg_encodable(
        renditions.large.buffer().spec_width(),
        renditions.large.buffer().spec_height(),
    )
    &&& renditions.medium.is_generated() ==> jpeg_encodable(
        renditions.medium.buffer().spec_width(),
        renditions.medium.buffer().spec_height(),
    )
    &&& renditions.tiny.is_generated() ==> jpeg_encodable(
        renditions.tiny.buffer().spec_width(),
        renditions.tiny.buffer().spec_height(),
    )
}

/// Lays out one asset as a plan of write actions: the directories first,
/// then the original bytes verbatim, then the four renditions in chain
/// order — encoded at the given quality when generated, linked to their
/// source when aliased. Succeeds exactly when every rendition that must be
/// encoded fits a JPEG frame.
pub fn plan_layout(
    key: &str,
    file_name: &str,
    data: Vec<u8>,
    renditions: &Cascade,
    quality: u8,
) -> (result: Result<Vec<WriteAction>, Error>)
    ensures
        result is Ok <==> plan_encodable(*renditions),
        match result {
            Ok(plan) => {
                &&& plan@.len() == 6
                &&& plan@[0] matches WriteAction::CreateDirectories { key: action_key }
                    && action_key@ == key@
                &&& plan@[1] matches WriteAction::WriteOriginal {
                    key: action_key,
                    file_name: action_file_name,
                    bytes,
                } && action_key@ == key@ && action_file_name@ == file_name@ && bytes@ == data@
                &&& rendition_action_matches(plan@[2], key@, RenditionSlot::Full, true)
                &&& rendition_action_matches(
                    plan@[3],
                    key@,
                    RenditionSlot::Large,
                    renditions.large.is_generated(),
                )
                &&& rendition_action_matches(
                    plan@[4],
                    key@,
                    RenditionSlot::Medium,
                    renditions.medium.is_generated(),
                )
                &&& rendition_action_matches(
                    plan@[5],
                    key@,
                    RenditionSlot::Tiny,
                    renditions.tiny.is_generated(),
                )
            },
            Err(error) => error matches Error::ImageError(_),
        },
{
    let mut plan: Vec<WriteAction> = Vec::new();
    plan.push(WriteAction::CreateDirectories { key: key.to_owned() });
    plan.push(
        WriteAction::WriteOriginal {
            key: key.to_owned(),
            file_name: file_name.to_owned(),
            bytes: data,
        },
    );
    let full_bytes = match renditions.full.image().encode_jpeg(quality) {
        Ok(bytes) => bytes,
        Err(error) => {
            return Err(Error::ImageError(error));
        },
    };
    plan.push(
        WriteAction::WriteRendition {
            key: key.to_owned(),
            slot: RenditionSlot::Full,
            bytes: full_bytes,
        },
    );
    match &renditions.large {
        ImageKind::Generated(buffer) => {
            let bytes = match buffer.encode_jpeg(quality) {
                Ok(bytes) => bytes,
                Err(error) => {
                    return Err(Error::ImageError(error));
                },
            };
            plan.push(
                WriteAction::WriteRendition { key: key.to_owned(), slot: RenditionSlot::Large, bytes },
            );
        },
        ImageKind::Symlink(_) => {
            plan.push(
                WriteAction::LinkRendition {
                    key: key.to_owned(),
                    slot: RenditionSlot::Large,
                    source: RenditionSlot::Full,
                },
            );
        },
    }
    match &renditions.medium {
        ImageKind::Generated(buffer) => {
            let bytes = match buffer.encode_jpeg(quality) {
                Ok(bytes) => bytes,
                Err(error) => {
                    return Err(Error::ImageError(error));
                },
            };
            plan.push(
                WriteAction::WriteRendition {
                    key: key.to_owned(),
                    slot: RenditionSlot::Medium,
                    bytes,
                },
            );
        },
        ImageKind::Symlink(_) => {
            plan.push(
                WriteAction::LinkRendition {
                    key: key.to_owned(),
                    slot: RenditionSlot::Medium,
                    source: RenditionSlot::Large,
                },
            );
        },
    }
    match &renditions.tiny {
        ImageKind::Generated(buffer) => {
            let bytes = match buffer.encode_jpeg(quality) {
                Ok(bytes) => bytes,
                Err(error) => {
                    return Err(Error::ImageError(error));
                },
            };
            plan.push(
                WriteAction::WriteRendition { key: key.to_owned(), slot: RenditionSlot::Tiny, bytes },
            );
        },
        ImageKind::Symlink(_) => {
            plan.push(
                WriteAction::LinkRendition {
                    key: key.to_owned(),
                    slot: RenditionSlot::Tiny,
                    source: RenditionSlot::Medium,
                },
            );
        },
    }
    Ok(plan)
}

/// Alias materialization: the action a plan holds for an aliased rendition
/// is a symbolic link whose source is the slot's immediate predecessor —
/// for an aliased `tiny`, a link to `medium`'s file, not a byte copy.
pub proof fn lemma_alias_materialization(action: WriteAction, key: Seq<char>)
    requires
        rendition_action_matches(action, key, RenditionSlot::Tiny, false),
    ensures
        action matches WriteAction::LinkRendition { key: action_key, slot, source }
            && action_key@ == key && slot == RenditionSlot::Tiny && source == RenditionSlot::Medium,
{
}

} // verus!
