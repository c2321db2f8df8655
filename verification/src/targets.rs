//! Sizes of the render targets: the output resolution, the (upscaled) render
//! resolution, and which named targets follow which of them.
use vstd::prelude::*;

verus! {

#[derive(Debug, Copy, Clone, PartialEq, Eq, Structural)]
pub struct TargetSize {
    pub width: u32,
    pub height: u32,
}

impl TargetSize {
    pub fn new(width: u32, height: u32) -> (size: Self)
        ensures
            size == dims(width, height),
    {
        TargetSize { width, height }
    }
}

impl Default for TargetSize {
    /// The empty size, 0 by 0.
    fn default() -> (size: Self)
        ensures
            size.width == 0,
            size.height == 0,
    {
        TargetSize { width: 0, height: 0 }
    }
}

/// The size with the given width and height.
pub open spec fn dims(width: u32, height: u32) -> TargetSize {
    TargetSize { width, height }
}

/// Which resolution a render target follows.
#[derive(Debug, Copy, Clone, PartialEq, Eq, Structural)]
pub enum SizeGroup {
    RenderResolution,
    OutputResolution,
    Custom(TargetSize),
}

/// The quality preset of the upscaler, which decides the render resolution for
/// a given output resolution.
#[derive(Debug, Copy, Clone, PartialEq, Eq, Structural)]
pub enum UpscaleQuality {
    Quality,
    Balanced,
    Performance,
    UltraPerformance,
}

/// Why a request about render targets was refused.
#[derive(Debug, Copy, Clone, PartialEq, Eq, Structural)]
pub enum TargetError {
    /// No target with this name is registered.
    NotFound,
    /// The render resolution may not exceed the output resolution.
    RenderAboveOutput,
}

/// A registered render target: its name and the resolution it follows.
pub struct TargetInfo {
    pub name: String,
    pub size_group: SizeGroup,
}

/// The resolution that a size group stands for, given the current render and
/// output resolutions.
pub open spec fn group_resolution(group: SizeGroup, render: TargetSize, output: TargetSize) -> TargetSize {
    match group {
        SizeGroup::RenderResolution => render,
        SizeGroup::OutputResolution => output,
        SizeGroup::Custom(size) => size,
    }
}

/// The names of the targets in `targets` that follow `group`, in registration order.
pub open spec fn names_in_group(targets: Seq<TargetInfo>, group: SizeGroup) -> Seq<Seq<char>>
    decreases targets.len(),
{
    if targets.len() == 0 {
        Seq::empty()
    } else {
        let rest = names_in_group(targets.drop_last(), group);
        if targets.last().size_group == group {
            rest.push(targets.last().name@)
        } else {
            rest
        }
    }
}

/// Each name listed for a size group is the name of a target of that group.
pub proof fn law_listed_names_follow_group(targets: Seq<TargetInfo>, group: SizeGroup, k: int)
    requires
        0 <= k < names_in_group(targets, group).len(),
    ensures
        exists|i: int|
            0 <= i < targets.len() && #[trigger] targets[i].size_group == group && targets[i].name@
                == names_in_group(targets, group)[k],
    decreases targets.len(),
{
    let init = targets.drop_last();
    let rest = names_in_group(init, group);
    if k < rest.len() {
        law_listed_names_follow_group(init, group, k);
        let i = choose|i: int|
            0 <= i < init.len() && #[trigger] init[i].size_group == group && init[i].name@
                == rest[k];
        assert(targets[i] == init[i]);
        assert(targets[i].size_group == group);
    } else {
        let i = targets.len() - 1;
        assert(targets[i].size_group == group);
    }
}

/// Each target of a size group is listed among that group's names.
pub proof fn law_group_targets_are_listed(targets: Seq<TargetInfo>, group: SizeGroup, i: int)
    requires
        0 <= i < targets.len(),
        targets[i].size_group == group,
    ensures
        names_in_group(targets, group).contains(targets[i].name@),
    decreases targets.len(),
{
    let init = targets.drop_last();
    let rest = names_in_group(init, group);
    if i < targets.len() - 1 {
        assert(init[i] == targets[i]);
        law_group_targets_are_listed(init, group, i);
        let k = choose|k: int| 0 <= k < rest.len() && rest[k] == init[i].name@;
        assert(names_in_group(targets, group)[k] == rest[k]);
    } else {
        let names = names_in_group(targets, group);
        assert(names[names.len() - 1] == targets[i].name@);
    }
}

/// Some target of size group `group` is called `name`.
pub open spec fn named_in_group(targets: Seq<TargetInfo>, group: SizeGroup, name: Seq<char>) -> bool {
    exists|i: int| 0 <= i < targets.len() && targets[i].size_group == group && targets[i].name@ == name
}

/// `names` lists exactly the targets that follow `group`: each listed name is
/// the name of a target of that group, and each target of that group is listed.
pub open spec fn follows_group(targets: Seq<TargetInfo>, group: SizeGroup, names: Seq<String>) -> bool {
    &&& forall|k: int| 0 <= k < names.len() ==> named_in_group(targets, group, #[trigger] names[k]@)
    &&& forall|i: int|
        0 <= i < targets.len() && #[trigger] targets[i].size_group == group ==> exists|k: int|
            0 <= k < names.len() && (#[trigger] names[k])@ == targets[i].name@
}

/// No two targets have the same name.
pub open spec fn names_unique(targets: Seq<TargetInfo>) -> bool {
    forall|i: int, j: int|
        0 <= i < targets.len() && 0 <= j < targets.len() && i != j ==> targets[i].name@
            != targets[j].name@
}

/// What changing the output resolution asks of the caller.
pub enum OutputChange {
    /// The output resolution was already this size.
    Unchanged,
    /// The output resolution changed: these targets must be recreated at the new
    /// output resolution, and the render resolution must be updated for it.
    Resized { targets: Vec<String> },
}

/// The bookkeeping of the render targets: which targets exist, which resolution
/// each follows, and the current output and render resolutions.
pub struct RenderTargets {
    targets: Vec<TargetInfo>,
    output_resolution: TargetSize,
    render_resolution: TargetSize,
    upscale_quality: UpscaleQuality,
}

/// A list of names whose views are the names of a size group lists exactly the
/// targets of that group.
proof fn lemma_listed_names_follow(targets: Seq<TargetInfo>, group: SizeGroup, names: Seq<String>)
    requires
        names.map_values(|name: String| name@) == names_in_group(targets, group),
    ensures
        follows_group(targets, group, names),
{
    let listed = names.map_values(|name: String| name@);
    assert forall|k: int| 0 <= k < names.len() implies named_in_group(
        targets,
        group,
        #[trigger] names[k]@,
    ) by {
        law_listed_names_follow_group(targets, group, k);
        assert(listed[k] == names[k]@);
    }
    assert forall|i: int| 0 <= i < targets.len() && #[trigger] targets[i].size_group == group
        implies exists|k: int| 0 <= k < names.len() && (#[trigger] names[k])@ == targets[i].name@ by {
        law_group_targets_are_listed(targets, group, i);
        let k = choose|k: int| 0 <= k < listed.len() && listed[k] == targets[i].name@;
        assert(listed[k] == names[k]@);
    }
}

/// Collect the names of the targets that follow `group`.
fn collect_group(targets: &Vec<TargetInfo>, group: SizeGroup) -> (names: Vec<String>)
    ensures
        names@.map_values(|name: String| name@) == names_in_group(targets@, group),
        follows_group(targets@, group, names@),
{
    let mut names: Vec<String> = Vec::new();
    let mut i: usize = 0;
    while i < targets.len()
        invariant
            i <= targets.len(),
            names@.map_values(|name: String| name@) == names_in_group(targets@.take(i as int), group),
        decreases targets.len() - i,
    {
        assert(targets@.take(i + 1).drop_last() =~= targets@.take(i as int));
        if targets[i].size_group == group {
            names.push(targets[i].name.clone());
            assert(names@.map_values(|name: String| name@) =~= names_in_group(
                targets@.take(i as int),
                group,
            ).push(targets@[i as int].name@));
        }
        i = i + 1;
    }
    assert(targets@.take(targets.len() as int) =~= targets@);
    proof {
        lemma_listed_names_follow(targets@, group, names@);
    }
    names
}

impl RenderTargets {
    /// The registered targets, in registration order.
    pub closed spec fn targets(&self) -> Seq<TargetInfo> {
        self.targets@
    }

    pub closed spec fn output(&self) -> TargetSize {
        self.output_resolution
    }

    pub closed spec fn render(&self) -> TargetSize {
        self.render_resolution
    }

    pub closed spec fn quality(&self) -> UpscaleQuality {
        self.upscale_quality
    }

    /// No two registered targets share a name.
    pub closed spec fn wf(&self) -> bool {
        names_unique(self.targets@)
    }

    /// No targets, both resolutions 0 by 0, and the highest quality preset.
    pub fn new() -> (targets: Self)
        ensures
            targets.wf(),
            targets.targets().len() == 0,
            targets.output() == dims(0, 0),
            targets.render() == dims(0, 0),
            targets.quality() == UpscaleQuality::Quality,
    {
        RenderTargets {
            targets: Vec::new(),
            output_resolution: TargetSize::default(),
            render_resolution: TargetSize::default(),
            upscale_quality: UpscaleQuality::Quality,
        }
    }

    /// The current upscale quality.
    pub fn upscale_quality(&self) -> (quality: UpscaleQuality)
        ensures
            quality == self.quality(),
    {
        self.upscale_quality
    }

    /// Select the upscale quality. The caller then sets the render resolution
    /// that the upscaler gives for it.
    pub fn set_upscale_quality(&mut self, quality: UpscaleQuality)
        ensures
            final(self).quality() == quality,
            final(self).targets() == old(self).targets(),
            final(self).output() == old(self).output(),
            final(self).render() == old(self).render(),
    {
        self.upscale_quality = quality;
    }

    /// Change the output resolution. Nothing changes if it already has this size.
    /// Otherwise the returned targets, those that follow the output resolution,
    /// must be recreated at the new size.
    pub fn set_output_resolution(&mut self, width: u32, height: u32) -> (change: OutputChange)
        ensures
            final(self).targets() == old(self).targets(),
            final(self).render() == old(self).render(),
            final(self).quality() == old(self).quality(),
            final(self).output() == dims(width, height),
            match change {
                OutputChange::Unchanged => old(self).output() == dims(width, height),
                OutputChange::Resized { targets } => old(self).output() != dims(
                    width,
                    height,
                ) && targets@.map_values(|name: String| name@) == names_in_group(
                    old(self).targets(),
                    SizeGroup::OutputResolution,
                ) && follows_group(old(self).targets(), SizeGroup::OutputResolution, targets@),
            },
    {
        if self.output_resolution.width == width && self.output_resolution.height == height {
            return OutputChange::Unchanged;
        }
        self.output_resolution = TargetSize::new(width, height);
        let targets = collect_group(&self.targets, SizeGroup::OutputResolution);
        OutputChange::Resized { targets }
    }

    /// Change the render resolution. The request is taken as already satisfied,
    /// and nothing changes, when the render width and the output height equal the
    /// requested ones. A render resolution above the output resolution in either
    /// direction is refused. Otherwise the returned targets, those that follow the
    /// render resolution, must be recreated at the new size.
    pub fn set_render_resolution(&mut self, width: u32, height: u32) -> (result: Result<Vec<String>, TargetError>)
        ensures
            final(self).targets() == old(self).targets(),
            final(self).output() == old(self).output(),
            final(self).quality() == old(self).quality(),
            old(self).render().width == width && old(self).output().height == height ==> {
                &&& result matches Ok(names) && names@.len() == 0
                &&& final(self).render() == old(self).render()
            },
            !(old(self).render().width == width && old(self).output().height == height) ==> {
                if width > old(self).output().width || height > old(self).output().height {
                    &&& result == Err::<Vec<String>, TargetError>(TargetError::RenderAboveOutput)
                    &&& final(self).render() == old(self).render()
                } else {
                    &&& result matches Ok(names) && names@.map_values(|name: String| name@)
                        == names_in_group(old(self).targets(), SizeGroup::RenderResolution)
                        && follows_group(old(self).targets(), SizeGroup::RenderResolution, names@)
                    &&& final(self).render() == dims(width, height)
                }
            },
    {
        if self.render_resolution.width == width && self.output_resolution.height == height {
            return Ok(Vec::new());
        }
        if width > self.output_resolution.width || height > self.output_resolution.height {
            return Err(TargetError::RenderAboveOutput);
        }
        self.render_resolution = TargetSize::new(width, height);
        Ok(collect_group(&self.targets, SizeGroup::RenderResolution))
    }

    /// The resolution of a size group under the current resolutions.
    pub fn size_group_resolution(&self, size_group: SizeGroup) -> (size: TargetSize)
        ensures
            size == group_resolution(size_group, self.render(), self.output()),
    {
        match size_group {
            SizeGroup::RenderResolution => self.render_resolution,
            SizeGroup::OutputResolution => self.output_resolution,
            SizeGroup::Custom(size) => size,
        }
    }

    /// The position of the target called `name`, if one is registered.
    fn find_target(&self, name: &String) -> (found: Option<usize>)
        ensures
            match found {
                Some(i) => i < self.targets().len() && self.targets()[i as int].name@ == name@,
                None => forall|i: int|
                    0 <= i < self.targets().len() ==> self.targets()[i].name@ != name@,
            },
    {
        let mut i: usize = 0;
        while i < self.targets.len()
            invariant
                i <= self.targets@.len(),
                forall|j: int| 0 <= j < i ==> self.targets@[j].name@ != name@,
            decreases self.targets@.len() - i,
        {
            if self.targets[i].name == *name {
                return Some(i);
            }
            i = i + 1;
        }
        None
    }

    /// Register a target, or change the size group of the target of that name.
    /// The caller creates the target's image at `size_group_resolution(size)`.
    pub fn register_target(&mut self, name: String, size: SizeGroup)
        requires
            old(self).wf(),
        ensures
            final(self).wf(),
            final(self).output() == old(self).output(),
            final(self).render() == old(self).render(),
            final(self).quality() == old(self).quality(),
            forall|i: int|
                0 <= i < old(self).targets().len() && old(self).targets()[i].name@ == name@
                    ==> final(self).targets() == old(self).targets().update(
                    i,
                    TargetInfo { name, size_group: size },
                ),
            (forall|i: int|
                0 <= i < old(self).targets().len() ==> old(self).targets()[i].name@ != name@)
                ==> final(self).targets() == old(self).targets().push(
                TargetInfo { name, size_group: size },
            ),
    {
        match self.find_target(&name) {
            Some(i) => {
                proof {
                    assert forall|j: int| 0 <= j < old(self).targets().len() && old(self).targets()[j].name@ == name@ implies j == i by {}
                }
                self.targets.set(i, TargetInfo { name, size_group: size });
            },
            None => {
                self.targets.push(TargetInfo { name, size_group: size });
            },
        }
    }

    /// The current size of the target called `name`.
    pub fn target_size(&self, name: &String) -> (result: Result<TargetSize, TargetError>)
        ensures
            match result {
                Ok(size) => exists|i: int|
                    0 <= i < self.targets().len() && self.targets()[i].name@ == name@ && size
                        == group_resolution(self.targets()[i].size_group, self.render(), self.output()),
                Err(e) => e == TargetError::NotFound && forall|i: int|
                    0 <= i < self.targets().len() ==> self.targets()[i].name@ != name@,
            },
    {
        match self.find_target(name) {
            Some(i) => Ok(self.size_group_resolution(self.targets[i].size_group)),
            None => Err(TargetError::NotFound),
        }
    }
}

} // verus!
