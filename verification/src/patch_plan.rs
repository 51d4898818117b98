//! Patching an initramfs: the steps, and what the failure of one means.

use vstd::prelude::*;

use crate::initramfs;
use crate::initramfs::{is_module, tool_destination, PatchError};
use crate::text;
use crate::text::{cat2, join_path};

verus! {

/// One step. A failure of any but the last ends the patching.
#[derive(Clone, Debug)]
pub enum PatchStep {
    /// Create the directory and what is above it.
    CreateDir { path: String },
    /// Unpack the archive into the directory.
    Unpack { archive: String, root: String },
    /// Copy the file.
    Copy { from: String, to: String },
    /// Copy the file, and make it executable.
    Install { from: String, to: String },
    /// Run the script on the root file system.
    RunScript { script: String, root: String, assets: String, tools: String },
    /// Pack the directory into a raw archive.
    Repack { root: String, to: String },
    /// Fix the ownership in the raw archive, and write it compressed.
    Compress { from: String, to: String },
    /// Remove the directory and everything in it.
    RemoveTree { path: String },
}

/// What a [`PatchStep`] holds.
pub enum PatchStepView {
    CreateDir { path: Seq<char> },
    Unpack { archive: Seq<char>, root: Seq<char> },
    Copy { from: Seq<char>, to: Seq<char> },
    Install { from: Seq<char>, to: Seq<char> },
    RunScript { script: Seq<char>, root: Seq<char>, assets: Seq<char>, tools: Seq<char> },
    Repack { root: Seq<char>, to: Seq<char> },
    Compress { from: Seq<char>, to: Seq<char> },
    RemoveTree { path: Seq<char> },
}

impl View for PatchStep {
    type V = PatchStepView;

    open spec fn view(&self) -> PatchStepView {
        match *self {
            PatchStep::CreateDir { path } => PatchStepView::CreateDir { path: path@ },
            PatchStep::Unpack { archive, root } => PatchStepView::Unpack {
                archive: archive@,
                root: root@,
            },
            PatchStep::Copy { from, to } => PatchStepView::Copy { from: from@, to: to@ },
            PatchStep::Install { from, to } => PatchStepView::Install { from: from@, to: to@ },
            PatchStep::RunScript { script, root, assets, tools } => PatchStepView::RunScript {
                script: script@,
                root: root@,
                assets: assets@,
                tools: tools@,
            },
            PatchStep::Repack { root, to } => PatchStepView::Repack { root: root@, to: to@ },
            PatchStep::Compress { from, to } => PatchStepView::Compress { from: from@, to: to@ },
            PatchStep::RemoveTree { path } => PatchStepView::RemoveTree { path: path@ },
        }
    }
}

/// The contents of a list of steps.
pub open spec fn patch_views(steps: Seq<PatchStep>) -> Seq<PatchStepView> {
    steps.map_values(|s: PatchStep| s@)
}

/// What is patched: where everything is.
#[derive(Clone, Debug)]
pub struct PatchJob {
    /// The archive to patch.
    pub initramfs: String,
    pub resources: String,
    /// A directory that nobody else uses.
    pub work_dir: String,
    /// Where the patched archive goes.
    pub out: String,
    /// The directory of the patched archive.
    pub out_dir: Option<String>,
}

impl PatchJob {
    /// The unpacked root file system.
    pub open spec fn root(self) -> Seq<char> {
        text::joined(self.work_dir@, "rootfs"@)
    }

    /// The raw patched archive.
    pub open spec fn raw(self) -> Seq<char> {
        text::joined(self.work_dir@, "initramfs-patched.cpio"@)
    }

    /// The directory of the kernel modules among the resources.
    pub open spec fn modules(self) -> Seq<char> {
        text::joined(self.resources@, "modules"@)
    }

    /// The directory of the guest's tools among the resources.
    pub open spec fn tools(self) -> Seq<char> {
        text::joined(self.resources@, "tools"@)
    }

    /// The directory of the patch script among the resources.
    pub open spec fn patches(self) -> Seq<char> {
        text::joined(self.resources@, "patch"@)
    }
}

/// The kernel modules among the files go below the root file system; other files do not.
pub open spec fn module_copies(job: PatchJob, names: Seq<Seq<char>>) -> Seq<PatchStepView>
    decreases names.len(),
{
    if names.len() == 0 {
        Seq::empty()
    } else {
        let front = module_copies(job, names.drop_last());
        let name = names.last();
        if initramfs::is_module_name(name) {
            front.push(
                PatchStepView::Copy {
                    from: text::joined(job.modules(), name),
                    to: text::joined(text::joined(job.root(), "lib/modules"@), name),
                },
            )
        } else {
            front
        }
    }
}

/// The installation of a tool.
pub open spec fn tool_install(job: PatchJob, name: Seq<char>) -> PatchStepView {
    PatchStepView::Install {
        from: text::joined(job.tools(), name),
        to: text::joined(job.root(), initramfs::tool_place(name)),
    }
}

/// The steps up to the injected modules.
pub open spec fn unpack_part(job: PatchJob, modules: Seq<Seq<char>>) -> Seq<PatchStepView> {
    seq![
        PatchStepView::CreateDir { path: job.root() },
        PatchStepView::Unpack { archive: job.initramfs@, root: job.root() },
        PatchStepView::CreateDir { path: text::joined(job.root(), "lib/modules"@) },
    ] + module_copies(job, modules)
}

/// The steps that install the tools.
pub open spec fn tool_part(job: PatchJob, tools: Seq<Seq<char>>) -> Seq<PatchStepView> {
    seq![
        PatchStepView::CreateDir { path: text::joined(job.root(), "usr/bin"@) },
        PatchStepView::CreateDir { path: text::joined(job.root(), "home/root"@) },
    ] + tools.map_values(|name: Seq<char>| tool_install(job, name))
}

/// The steps from the patch script on.
pub open spec fn pack_part(job: PatchJob) -> Seq<PatchStepView> {
    seq![
        PatchStepView::RunScript {
            script: text::joined(job.patches(), "patch-rootfs.sh"@),
            root: job.root(),
            assets: job.patches(),
            tools: job.tools(),
        },
        PatchStepView::Repack { root: job.root(), to: job.raw() },
    ] + (match job.out_dir {
        Some(dir) => seq![PatchStepView::CreateDir { path: dir@ }],
        None => Seq::empty(),
    }) + seq![
        PatchStepView::Compress { from: job.raw(), to: job.out@ },
        PatchStepView::RemoveTree { path: job.work_dir@ },
    ]
}

fn add_step(steps: &mut Vec<PatchStep>, step: PatchStep)
    ensures
        patch_views(final(steps)@) == patch_views(old(steps)@).push(step@),
{
    steps.push(step);
    assert(patch_views(steps@) =~= patch_views(old(steps)@).push(step@));
}

fn add_modules(steps: &mut Vec<PatchStep>, job: &PatchJob, root: &str, modules: &Vec<String>)
    requires
        root@ == job.root(),
    ensures
        patch_views(final(steps)@) == patch_views(old(steps)@) + module_copies(
            *job,
            text::texts(modules@),
        ),
{
    let from_dir = join_path(job.resources.as_str(), "modules");
    let to_dir = join_path(root, "lib/modules");
    let ghost names = text::texts(modules@);
    let ghost start = patch_views(steps@);
    let len: usize = modules.len();
    let mut i: usize = 0;
    assert(names.take(0) =~= Seq::empty());
    assert(patch_views(steps@) =~= start + module_copies(*job, names.take(0)));
    while i < len
        invariant
            i <= len == modules@.len(),
            names == text::texts(modules@),
            root@ == job.root(),
            from_dir@ == job.modules(),
            to_dir@ == text::joined(root@, "lib/modules"@),
            patch_views(steps@) == start + module_copies(*job, names.take(i as int)),
        decreases len - i,
    {
        let name = modules[i].as_str();
        assert(names.take(i + 1).drop_last() =~= names.take(i as int));
        assert(names.take(i + 1).last() == name@);
        if is_module(name) {
            add_step(
                steps,
                PatchStep::Copy {
                    from: join_path(from_dir.as_str(), name),
                    to: join_path(to_dir.as_str(), name),
                },
            );
        }
        assert(patch_views(steps@) =~= start + module_copies(*job, names.take(i + 1)));
        i += 1;
    }
    assert(names.take(len as int) =~= names);
}

fn add_tools(steps: &mut Vec<PatchStep>, job: &PatchJob, root: &str, tools: &Vec<String>)
    requires
        root@ == job.root(),
    ensures
        patch_views(final(steps)@) == patch_views(old(steps)@) + text::texts(tools@).map_values(
            |name: Seq<char>| tool_install(*job, name),
        ),
{
    let from_dir = join_path(job.resources.as_str(), "tools");
    let ghost all = text::texts(tools@).map_values(|name: Seq<char>| tool_install(*job, name));
    let ghost start = patch_views(steps@);
    let len: usize = tools.len();
    let mut i: usize = 0;
    assert(patch_views(steps@) =~= start + all.take(0));
    while i < len
        invariant
            i <= len == tools@.len(),
            all == text::texts(tools@).map_values(|name: Seq<char>| tool_install(*job, name)),
            root@ == job.root(),
            from_dir@ == job.tools(),
            patch_views(steps@) == start + all.take(i as int),
        decreases len - i,
    {
        let name = tools[i].as_str();
        add_step(
            steps,
            PatchStep::Install {
                from: join_path(from_dir.as_str(), name),
                to: join_path(root, tool_destination(name).as_str()),
            },
        );
        assert(all.take(i + 1) =~= all.take(i as int).push(tool_install(*job, name@)));
        assert(patch_views(steps@) =~= start + all.take(i + 1));
        i += 1;
    }
    assert(all.take(len as int) =~= all);
}

/// The steps of patching an initramfs, once the resources have been found complete.
/// `modules` and `tools` are the names of the files in those directories of the resources.
pub fn patch_initramfs(job: &PatchJob, modules: &Vec<String>, tools: &Vec<String>) -> (r: Vec<
    PatchStep,
>)
    ensures
        patch_views(r@) == unpack_part(*job, text::texts(modules@)) + tool_part(
            *job,
            text::texts(tools@),
        ) + pack_part(*job),
{
    let root = join_path(job.work_dir.as_str(), "rootfs");
    let raw = join_path(job.work_dir.as_str(), "initramfs-patched.cpio");
    let assets = join_path(job.resources.as_str(), "patch");
    let mut steps: Vec<PatchStep> = Vec::new();
    add_step(&mut steps, PatchStep::CreateDir { path: root.clone() });
    add_step(
        &mut steps,
        PatchStep::Unpack { archive: job.initramfs.clone(), root: root.clone() },
    );
    add_step(&mut steps, PatchStep::CreateDir { path: join_path(root.as_str(), "lib/modules") });
    add_modules(&mut steps, job, root.as_str(), modules);
    assert(patch_views(steps@) =~= unpack_part(*job, text::texts(modules@)));
    let ghost first = patch_views(steps@);
    add_step(&mut steps, PatchStep::CreateDir { path: join_path(root.as_str(), "usr/bin") });
    add_step(&mut steps, PatchStep::CreateDir { path: join_path(root.as_str(), "home/root") });
    add_tools(&mut steps, job, root.as_str(), tools);
    assert(patch_views(steps@) =~= first + tool_part(*job, text::texts(tools@)));
    let ghost second = patch_views(steps@);
    add_step(
        &mut steps,
        PatchStep::RunScript {
            script: join_path(assets.as_str(), "patch-rootfs.sh"),
            root: root.clone(),
            assets: assets.clone(),
            tools: join_path(job.resources.as_str(), "tools"),
        },
    );
    add_step(&mut steps, PatchStep::Repack { root, to: raw.clone() });
    if let Some(dir) = &job.out_dir {
        add_step(&mut steps, PatchStep::CreateDir { path: dir.clone() });
    }
    add_step(&mut steps, PatchStep::Compress { from: raw, to: job.out.clone() });
    add_step(&mut steps, PatchStep::RemoveTree { path: job.work_dir.clone() });
    assert(patch_views(steps@) =~= second + pack_part(*job));
    steps
}

/// The error of a patch script that did not succeed.
pub fn script_failed(status: &str) -> (r: PatchError)
    ensures
        r matches PatchError::CommandFailed(t) && t@ == "patch-rootfs.sh exited with "@ + status@,
{
    PatchError::CommandFailed(cat2("patch-rootfs.sh exited with ", status))
}

/// The error of an archiver that did not succeed in unpacking.
pub fn unpack_failed(status: &str) -> (r: PatchError)
    ensures
        r matches PatchError::CommandFailed(t) && t@ == "cpio -id exited with "@ + status@,
{
    PatchError::CommandFailed(cat2("cpio -id exited with ", status))
}

/// The error where there is no archiver to unpack with.
pub fn unpacker_missing(error: &str) -> (r: PatchError)
    ensures
        r matches PatchError::CommandFailed(t) && t@ == "cpio: "@ + error@,
{
    PatchError::CommandFailed(cat2("cpio: ", error))
}

/// The error of a listing that did not succeed.
pub fn listing_failed() -> (r: PatchError)
    ensures
        r matches PatchError::CommandFailed(t) && t@ == "find failed"@,
{
    PatchError::CommandFailed("find failed".to_owned())
}

/// The error where there is no archiver to pack with.
pub fn packer_missing(error: &str) -> (r: PatchError)
    ensures
        r matches PatchError::CommandFailed(t) && t@ == "cpio -o: "@ + error@,
{
    PatchError::CommandFailed(cat2("cpio -o: ", error))
}

/// The error of an archiver that did not succeed in packing.
pub fn repack_failed(status: &str) -> (r: PatchError)
    ensures
        r matches PatchError::CommandFailed(t) && t@ == "cpio -o exited with "@ + status@,
{
    PatchError::CommandFailed(cat2("cpio -o exited with ", status))
}

/// What is said of a kernel that holds no initramfs.
pub fn no_initramfs(kernel: &str) -> (r: String)
    ensures
        r@ == "no embedded CPIO initramfs (gzip or LZ4 legacy) found in "@ + kernel@,
{
    cat2("no embedded CPIO initramfs (gzip or LZ4 legacy) found in ", kernel)
}

/// The steps that are left where one has failed: the work directory, with the unpacked root
/// file system in it, does not stay behind.
pub fn after_failure(job: &PatchJob) -> (r: Vec<PatchStep>)
    ensures
        patch_views(r@) == seq![PatchStepView::RemoveTree { path: job.work_dir@ }],
{
    let mut steps: Vec<PatchStep> = Vec::new();
    add_step(&mut steps, PatchStep::RemoveTree { path: job.work_dir.clone() });
    assert(patch_views(steps@) =~= seq![PatchStepView::RemoveTree { path: job.work_dir@ }]);
    steps
}

/// The first step creates the root file system in the work directory, and the last one
/// removes the work directory.
pub proof fn the_work_directory_is_removed_last(
    job: PatchJob,
    modules: Seq<Seq<char>>,
    tools: Seq<Seq<char>>,
)
    ensures
        ({
            let all = unpack_part(job, modules) + tool_part(job, tools) + pack_part(job);
            &&& all[0] == (PatchStepView::CreateDir { path: job.root() })
            &&& all.last() == (PatchStepView::RemoveTree { path: job.work_dir@ })
        }),
{
    let all = unpack_part(job, modules) + tool_part(job, tools) + pack_part(job);
    assert(all[0] == unpack_part(job, modules)[0]);
    assert(all.last() == pack_part(job).last());
}

/// The order of the steps: the archive is unpacked into the root file system, then come the
/// modules, then the tools, then the script runs on the result, and at last it is packed and
/// compressed to where it was asked for.
pub proof fn archives_are_patched_in_order(
    job: PatchJob,
    modules: Seq<Seq<char>>,
    tools: Seq<Seq<char>>,
)
    ensures
        ({
            let all = unpack_part(job, modules) + tool_part(job, tools) + pack_part(job);
            let root = text::joined(job.work_dir@, "rootfs"@);
            let raw = text::joined(job.work_dir@, "initramfs-patched.cpio"@);
            let assets = text::joined(job.resources@, "patch"@);
            let copies = module_copies(job, modules);
            let m = 3 + copies.len() as int;
            let t = m + 2 + tools.len() as int;
            &&& all[0] == (PatchStepView::CreateDir { path: root })
            &&& all[1] == (PatchStepView::Unpack { archive: job.initramfs@, root })
            &&& all[2] == (PatchStepView::CreateDir { path: text::joined(root, "lib/modules"@) })
            &&& all.subrange(3, m) == copies
            &&& all[m] == (PatchStepView::CreateDir { path: text::joined(root, "usr/bin"@) })
            &&& all[m + 1] == (PatchStepView::CreateDir { path: text::joined(root, "home/root"@) })
            &&& forall|i: int|
                0 <= i < tools.len() ==> #[trigger] all[m + 2 + i] == (PatchStepView::Install {
                    from: text::joined(text::joined(job.resources@, "tools"@), tools[i]),
                    to: text::joined(root, initramfs::tool_place(tools[i])),
                })
            &&& all[t] == (PatchStepView::RunScript {
                script: text::joined(assets, "patch-rootfs.sh"@),
                root,
                assets,
                tools: text::joined(job.resources@, "tools"@),
            })
            &&& all[t + 1] == (PatchStepView::Repack { root, to: raw })
            &&& job.out_dir matches Some(dir) ==> all[t + 2] == (PatchStepView::CreateDir {
                path: dir@,
            }) && all.len() == t + 5
            &&& job.out_dir is None ==> all.len() == t + 4
            &&& all[all.len() - 2] == (PatchStepView::Compress { from: raw, to: job.out@ })
            &&& all[all.len() - 1] == (PatchStepView::RemoveTree { path: job.work_dir@ })
        }),
{
    let a = unpack_part(job, modules);
    let b = tool_part(job, tools);
    let c = pack_part(job);
    let all = a + b + c;
    let m = a.len() as int;
    let t = m + b.len() as int;
    assert(m == 3 + module_copies(job, modules).len());
    assert(t == m + 2 + tools.len());
    assert(all.subrange(3, m) =~= module_copies(job, modules));
    assert(all[0] == a[0] && all[1] == a[1] && all[2] == a[2]);
    assert(all[m] == b[0] && all[m + 1] == b[1]);
    assert forall|i: int| 0 <= i < tools.len() implies #[trigger] all[m + 2 + i]
        == tool_install(job, tools[i]) by {
        assert(all[m + 2 + i] == b[2 + i]);
    }
    assert(all[t] == c[0] && all[t + 1] == c[1]);
    assert(job.out_dir is Some ==> all[t + 2] == c[2]);
    assert(all[all.len() - 2] == c[c.len() - 2]);
    assert(all[all.len() - 1] == c[c.len() - 1]);
}

/// The kernel modules, and no other files, are copied below the root file system, each under
/// its own name and in their order.
pub proof fn modules_are_copied_under_their_names(
    job: PatchJob,
    names: Seq<Seq<char>>,
    name: Seq<char>,
)
    ensures
        module_copies(job, Seq::empty()) == Seq::<PatchStepView>::empty(),
        initramfs::is_module_name(name) ==> module_copies(job, names.push(name)) == module_copies(
            job,
            names,
        ).push(
            PatchStepView::Copy {
                from: text::joined(text::joined(job.resources@, "modules"@), name),
                to: text::joined(
                    text::joined(text::joined(job.work_dir@, "rootfs"@), "lib/modules"@),
                    name,
                ),
            },
        ),
        !initramfs::is_module_name(name) ==> module_copies(job, names.push(name))
            == module_copies(job, names),
{
    assert(names.push(name).drop_last() =~= names);
}

} // verus!
