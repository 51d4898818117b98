//! Creating a virtual USB image: which commands run, and what their outcome means.

use vstd::prelude::*;

use crate::text;
use crate::text::{decimal_text, push_text};

verus! {

/// The commands that make an image, in their order.
#[derive(Clone, Copy, Debug, PartialEq, Eq, Structural)]
pub enum ImageStage {
    /// `qemu-img` creates the file.
    Create,
    /// `mkfs.exfat` formats it.
    Exfat,
    /// `mkfs.vfat` formats it, where exFAT did not work.
    Vfat,
}

/// How a command ended.
#[derive(Clone, Copy, Debug, PartialEq, Eq, Structural)]
pub enum CommandOutcome {
    /// It reported success.
    Succeeded,
    /// It ran and reported failure, with its exit code where it has one.
    Failed { code: Option<i32> },
    /// There is no such program.
    NotFound,
    /// It could not be run for another reason.
    Broken,
}

/// What an outcome means.
#[derive(Clone, Copy, Debug, PartialEq, Eq, Structural)]
pub enum ImageVerdict {
    /// The image is ready.
    Done,
    /// The next command is due.
    Next(ImageStage),
    /// The file could not be created.
    CreateFailed { code: Option<i32> },
    /// Neither formatter is installed or works.
    NoFormatter,
    /// A command could not be run.
    HostError,
}

/// What the outcome of a command means. A formatter that is missing or fails gives
/// way to the next one; a missing `qemu-img` is an error like any other.
pub open spec fn verdict(stage: ImageStage, outcome: CommandOutcome) -> ImageVerdict {
    match (stage, outcome) {
        (ImageStage::Create, CommandOutcome::Succeeded) => ImageVerdict::Next(ImageStage::Exfat),
        (ImageStage::Create, CommandOutcome::Failed { code }) => ImageVerdict::CreateFailed {
            code,
        },
        (ImageStage::Create, CommandOutcome::NotFound) => ImageVerdict::HostError,
        (_, CommandOutcome::Broken) => ImageVerdict::HostError,
        (_, CommandOutcome::Succeeded) => ImageVerdict::Done,
        (ImageStage::Exfat, _) => ImageVerdict::Next(ImageStage::Vfat),
        (ImageStage::Vfat, _) => ImageVerdict::NoFormatter,
    }
}

/// What the outcome of a command means.
pub fn after_command(stage: ImageStage, outcome: CommandOutcome) -> (r: ImageVerdict)
    ensures
        r == verdict(stage, outcome),
{
    match (stage, outcome) {
        (ImageStage::Create, CommandOutcome::Succeeded) => ImageVerdict::Next(ImageStage::Exfat),
        (ImageStage::Create, CommandOutcome::Failed { code }) => ImageVerdict::CreateFailed {
            code,
        },
        (ImageStage::Create, CommandOutcome::NotFound) => ImageVerdict::HostError,
        (_, CommandOutcome::Broken) => ImageVerdict::HostError,
        (_, CommandOutcome::Succeeded) => ImageVerdict::Done,
        (ImageStage::Exfat, _) => ImageVerdict::Next(ImageStage::Vfat),
        (ImageStage::Vfat, _) => ImageVerdict::NoFormatter,
    }
}

/// The command line of a stage, with the program in front.
pub open spec fn command_line(
    stage: ImageStage,
    qemu_img: Seq<char>,
    path: Seq<char>,
    size: u64,
) -> Seq<Seq<char>> {
    match stage {
        ImageStage::Create => seq![
            qemu_img,
            "create"@,
            "-f"@,
            "raw"@,
            path,
            text::decimal(size as nat),
        ],
        ImageStage::Exfat => seq!["mkfs.exfat"@, path],
        ImageStage::Vfat => seq!["mkfs.vfat"@, "-F"@, "32"@, path],
    }
}

/// The command line of a stage, with the program in front.
pub fn build_command(stage: ImageStage, qemu_img: &str, path: &str, size: u64) -> (r: Vec<String>)
    ensures
        text::texts(r@) == command_line(stage, qemu_img@, path@, size),
{
    let mut args: Vec<String> = Vec::new();
    match stage {
        ImageStage::Create => {
            push_text(&mut args, qemu_img);
            push_text(&mut args, "create");
            push_text(&mut args, "-f");
            push_text(&mut args, "raw");
            push_text(&mut args, path);
            push_text(&mut args, decimal_text(size as u128).as_str());
        },
        ImageStage::Exfat => {
            push_text(&mut args, "mkfs.exfat");
            push_text(&mut args, path);
        },
        ImageStage::Vfat => {
            push_text(&mut args, "mkfs.vfat");
            push_text(&mut args, "-F");
            push_text(&mut args, "32");
            push_text(&mut args, path);
        },
    }
    assert(text::texts(args@) =~= command_line(stage, qemu_img@, path@, size));
    args
}

/// An image is created before it is formatted, and formatted before it is done. FAT is tried
/// exactly where exFAT did not work, and where it does not work either there is no formatter;
/// the exit code of a failed creation is kept.
pub proof fn images_are_created_and_then_formatted(stage: ImageStage, outcome: CommandOutcome)
    ensures
        verdict(stage, outcome) is Done <==> !(stage is Create) && outcome is Succeeded,
        verdict(stage, outcome) == ImageVerdict::Next(ImageStage::Exfat) <==> stage is Create
            && outcome is Succeeded,
        verdict(stage, outcome) == ImageVerdict::Next(ImageStage::Vfat) <==> stage is Exfat && (
        outcome is Failed || outcome is NotFound),
        verdict(stage, outcome) != ImageVerdict::Next(ImageStage::Create),
        verdict(stage, outcome) is NoFormatter <==> stage is Vfat && (outcome is Failed
            || outcome is NotFound),
        verdict(stage, outcome) is HostError <==> outcome is Broken || (stage is Create
            && outcome is NotFound),
        forall|code: Option<i32>|
            verdict(stage, outcome) == (ImageVerdict::CreateFailed { code }) <==> stage is Create
                && outcome == (CommandOutcome::Failed { code }),
{
}

/// Every command names the image. The size is given in bytes to the one that creates it, as a
/// raw file.
pub proof fn commands_are_about_the_image(qemu_img: Seq<char>, path: Seq<char>, size: u64)
    ensures
        command_line(ImageStage::Create, qemu_img, path, size)[0] == qemu_img,
        command_line(ImageStage::Create, qemu_img, path, size).skip(1) == seq![
            "create"@,
            "-f"@,
            "raw"@,
            path,
            text::decimal(size as nat),
        ],
        command_line(ImageStage::Exfat, qemu_img, path, size) == seq!["mkfs.exfat"@, path],
        command_line(ImageStage::Vfat, qemu_img, path, size) == seq![
            "mkfs.vfat"@,
            "-F"@,
            "32"@,
            path,
        ],
{
    assert(command_line(ImageStage::Create, qemu_img, path, size).skip(1) =~= seq![
        "create"@,
        "-f"@,
        "raw"@,
        path,
        text::decimal(size as nat),
    ]);
}

} // verus!
