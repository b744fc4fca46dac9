//! What a decode pipeline is made of: source, optional conversion or upload
//! stage, and sink, with the settings the sink runs under.

use crate::frame::PixelFormat;
use vstd::prelude::*;

verus! {

/// Where the pictures come from.
#[derive(Debug, PartialEq, Eq)]
pub enum MediaSource {
    /// The engine's built-in test pattern.
    TestPattern,
    /// A media resource, by its URI.
    Uri(String),
}

/// Mathematical content of a [`MediaSource`].
pub enum MediaSourceView {
    TestPattern,
    Uri(Seq<char>),
}

impl View for MediaSource {
    type V = MediaSourceView;

    open spec fn view(&self) -> MediaSourceView {
        match self {
            MediaSource::TestPattern => MediaSourceView::TestPattern,
            MediaSource::Uri(uri) => MediaSourceView::Uri(uri@),
        }
    }
}

impl Clone for MediaSource {
    fn clone(&self) -> (copy: MediaSource)
        ensures
            copy@ == self@,
    {
        match self {
            MediaSource::TestPattern => MediaSource::TestPattern,
            MediaSource::Uri(uri) => MediaSource::Uri(uri.clone()),
        }
    }
}

/// What stands between source and sink.
#[derive(Clone, Copy, Debug, PartialEq, Eq, Structural)]
pub enum Stage {
    /// Nothing: the source feeds the sink.
    Direct,
    /// A colour-space conversion in system memory.
    ColorConvert,
    /// An upload into GPU memory, so that frames arrive as textures.
    GlUpload,
}

/// What the sink is asked to accept. The pixel format is always four channels
/// of eight bits.
#[derive(Clone, Copy, Debug, PartialEq, Eq, Structural)]
pub struct SinkCapabilities {
    pub stage: Stage,
    /// How late, in microseconds, a sample may be and still be handed on.
    pub max_lateness_us: u32,
}

/// The settings that the sink element runs under.
#[derive(Clone, Copy, Debug, PartialEq, Eq, Structural)]
pub struct SinkSettings {
    pub format: PixelFormat,
    /// Samples live in GPU memory rather than in system memory.
    pub gl_memory: bool,
    pub max_buffers: u32,
    pub drop_on_overflow: bool,
    pub sync_to_clock: bool,
    pub max_lateness_ns: u64,
    pub keep_last_sample: bool,
    pub emit_signals: bool,
}

impl SinkCapabilities {
    /// The sink keeps one sample at most, drops what it cannot hold, follows
    /// the clock and hands out nothing later than the lateness bound.
    pub open spec fn resolved(self) -> SinkSettings {
        SinkSettings {
            format: PixelFormat::Rgba8,
            gl_memory: self.stage is GlUpload,
            max_buffers: 1,
            drop_on_overflow: true,
            sync_to_clock: true,
            max_lateness_ns: (self.max_lateness_us * 1000) as u64,
            keep_last_sample: false,
            emit_signals: false,
        }
    }

    /// The settings to put on the sink element.
    pub fn settings(&self) -> (settings: SinkSettings)
        ensures
            settings == self.resolved(),
            settings.max_lateness_ns == self.max_lateness_us * 1000,
    {
        let micros: u64 = self.max_lateness_us as u64;
        SinkSettings {
            format: PixelFormat::Rgba8,
            gl_memory: match self.stage {
                Stage::GlUpload => true,
                _ => false,
            },
            max_buffers: 1,
            drop_on_overflow: true,
            sync_to_clock: true,
            max_lateness_ns: micros * 1000,
            keep_last_sample: false,
            emit_signals: false,
        }
    }
}

/// The part an element plays in the pipeline.
#[derive(Clone, Copy, Debug, PartialEq, Eq, Structural)]
pub enum ElementRole {
    TestSource,
    UriSource,
    Converter,
    Sink,
    GlSinkBin,
    GlUpload,
}

impl ElementRole {
    /// The name of the factory that makes the element.
    pub open spec fn factory(self) -> Seq<char> {
        match self {
            ElementRole::TestSource => "videotestsrc"@,
            ElementRole::UriSource => "uridecodebin"@,
            ElementRole::Converter => "videoconvert"@,
            ElementRole::Sink => "appsink"@,
            ElementRole::GlSinkBin => "glsinkbin"@,
            ElementRole::GlUpload => "glupload"@,
        }
    }

    /// The name under which the engine knows the factory.
    pub fn factory_name(self) -> (name: &'static str)
        ensures
            name@ == self.factory(),
    {
        match self {
            ElementRole::TestSource => "videotestsrc",
            ElementRole::UriSource => "uridecodebin",
            ElementRole::Converter => "videoconvert",
            ElementRole::Sink => "appsink",
            ElementRole::GlSinkBin => "glsinkbin",
            ElementRole::GlUpload => "glupload",
        }
    }
}

/// Which elements the engine could provide.
#[derive(Clone, Copy, Debug, PartialEq, Eq, Structural)]
pub struct ElementProbe {
    pub test_source: bool,
    pub uri_source: bool,
    pub converter: bool,
    pub sink: bool,
    pub gl_sink_bin: bool,
    pub gl_upload: bool,
}

impl ElementProbe {
    /// Whether the engine could provide the element for `role`.
    pub open spec fn has(self, role: ElementRole) -> bool {
        match role {
            ElementRole::TestSource => self.test_source,
            ElementRole::UriSource => self.uri_source,
            ElementRole::Converter => self.converter,
            ElementRole::Sink => self.sink,
            ElementRole::GlSinkBin => self.gl_sink_bin,
            ElementRole::GlUpload => self.gl_upload,
        }
    }

    /// Whether the engine could provide the element for `role`.
    pub fn provides(&self, role: ElementRole) -> (there: bool)
        ensures
            there == self.has(role),
    {
        match role {
            ElementRole::TestSource => self.test_source,
            ElementRole::UriSource => self.uri_source,
            ElementRole::Converter => self.converter,
            ElementRole::Sink => self.sink,
            ElementRole::GlSinkBin => self.gl_sink_bin,
            ElementRole::GlUpload => self.gl_upload,
        }
    }
}

/// The role of the source element for a kind of source.
pub open spec fn source_role(source: MediaSourceView) -> ElementRole {
    match source {
        MediaSourceView::TestPattern => ElementRole::TestSource,
        MediaSourceView::Uri(_) => ElementRole::UriSource,
    }
}

/// The elements that a pipeline needs, in the order in which they are made.
pub open spec fn required_roles(source: MediaSourceView, stage: Stage) -> Seq<ElementRole> {
    match stage {
        Stage::Direct => seq![source_role(source), ElementRole::Sink],
        Stage::ColorConvert => seq![source_role(source), ElementRole::Converter, ElementRole::Sink],
        Stage::GlUpload => seq![
            source_role(source),
            ElementRole::Sink,
            ElementRole::GlSinkBin,
            ElementRole::GlUpload,
        ],
    }
}

/// The elements that are put into the pipeline and linked, each to the next.
/// With an upload stage the sink is not among them: it sits inside the sink
/// bin, which makes its own upload element.
pub open spec fn linked_roles(source: MediaSourceView, stage: Stage) -> Seq<ElementRole> {
    match stage {
        Stage::Direct => seq![source_role(source), ElementRole::Sink],
        Stage::ColorConvert => seq![source_role(source), ElementRole::Converter, ElementRole::Sink],
        Stage::GlUpload => seq![source_role(source), ElementRole::GlSinkBin],
    }
}

/// The first of `roles`, in order, that the probe lacks.
pub open spec fn first_missing_role(roles: Seq<ElementRole>, probe: ElementProbe) -> Option<
    ElementRole,
>
    decreases roles.len(),
{
    if roles.len() == 0 {
        None
    } else if !probe.has(roles[0]) {
        Some(roles[0])
    } else {
        first_missing_role(roles.drop_first(), probe)
    }
}

/// `role` stands in `roles`, the probe lacks it, and it has every role before it.
pub open spec fn is_first_missing(
    roles: Seq<ElementRole>,
    probe: ElementProbe,
    role: ElementRole,
) -> bool {
    exists|i: int|
        0 <= i < roles.len() && roles[i] == role && !probe.has(role) && forall|j: int|
            0 <= j < i ==> probe.has(#[trigger] roles[j])
}

/// The probe has every one of `roles`.
pub open spec fn has_all(roles: Seq<ElementRole>, probe: ElementProbe) -> bool {
    forall|i: int| 0 <= i < roles.len() ==> probe.has(#[trigger] roles[i])
}

/// Nothing is reported missing exactly when the probe has every role; a role
/// that is reported is lacking, and every role before it is there.
pub proof fn lemma_first_missing_role(roles: Seq<ElementRole>, probe: ElementProbe)
    ensures
        first_missing_role(roles, probe) is None <==> has_all(roles, probe),
        first_missing_role(roles, probe) matches Some(role) ==> is_first_missing(
            roles,
            probe,
            role,
        ),
    decreases roles.len(),
{
    if roles.len() > 0 {
        let rest = roles.drop_first();
        lemma_first_missing_role(rest, probe);
        if !probe.has(roles[0]) {
            assert(0 <= 0 < roles.len() && roles[0] == roles[0] && !probe.has(roles[0]));
        } else {
            assert forall|i: int| 0 <= i < rest.len() implies rest[i] == roles[i + 1] by {
            }
            match first_missing_role(rest, probe) {
                Some(role) => {
                    let i = choose|i: int|
                        0 <= i < rest.len() && rest[i] == role && !probe.has(role) && forall|
                            j: int,
                        |
                            0 <= j < i ==> probe.has(#[trigger] rest[j]);
                    assert forall|j: int| 0 <= j < i + 1 implies probe.has(
                        #[trigger] roles[j],
                    ) by {
                        if j > 0 {
                            assert(roles[j] == rest[j - 1]);
                        }
                    }
                    assert(roles[i + 1] == role);
                },
                None => {
                    assert forall|i: int| 0 <= i < roles.len() implies probe.has(
                        #[trigger] roles[i],
                    ) by {
                        if i > 0 {
                            assert(roles[i] == rest[i - 1]);
                        }
                    }
                },
            }
            if has_all(roles, probe) {
                assert forall|i: int| 0 <= i < rest.len() implies probe.has(
                    #[trigger] rest[i],
                ) by {
                    assert(rest[i] == roles[i + 1]);
                }
            }
        }
    }
}

/// The elements that a pipeline over `source` with the given stage needs.
pub fn required_elements(source: &MediaSource, stage: Stage) -> (roles: Vec<ElementRole>)
    ensures
        roles@ == required_roles(source@, stage),
{
    let mut roles: Vec<ElementRole> = Vec::new();
    match source {
        MediaSource::TestPattern => roles.push(ElementRole::TestSource),
        MediaSource::Uri(_) => roles.push(ElementRole::UriSource),
    }
    match stage {
        Stage::Direct => {
            roles.push(ElementRole::Sink);
        },
        Stage::ColorConvert => {
            roles.push(ElementRole::Converter);
            roles.push(ElementRole::Sink);
        },
        Stage::GlUpload => {
            roles.push(ElementRole::Sink);
            roles.push(ElementRole::GlSinkBin);
            roles.push(ElementRole::GlUpload);
        },
    }
    assert(roles@ =~= required_roles(source@, stage));
    roles
}

/// The elements to put into the pipeline and to link, each to the next: from
/// the source to the sink, or to the bin that holds the sink.
pub fn chain(source: &MediaSource, stage: Stage) -> (roles: Vec<ElementRole>)
    ensures
        roles@ == linked_roles(source@, stage),
{
    let mut roles: Vec<ElementRole> = Vec::new();
    match source {
        MediaSource::TestPattern => roles.push(ElementRole::TestSource),
        MediaSource::Uri(_) => roles.push(ElementRole::UriSource),
    }
    match stage {
        Stage::Direct => {
            roles.push(ElementRole::Sink);
        },
        Stage::ColorConvert => {
            roles.push(ElementRole::Converter);
            roles.push(ElementRole::Sink);
        },
        Stage::GlUpload => {
            roles.push(ElementRole::GlSinkBin);
        },
    }
    assert(roles@ =~= linked_roles(source@, stage));
    roles
}

/// Whatever is linked has been made: the chain holds required elements only.
/// It runs from the source to the element that takes the frames in.
pub proof fn lemma_chain_is_required(source: MediaSourceView, stage: Stage)
    ensures
        forall|i: int|
            0 <= i < linked_roles(source, stage).len() ==> required_roles(source, stage).contains(
                #[trigger] linked_roles(source, stage)[i],
            ),
        linked_roles(source, stage).first() == source_role(source),
        linked_roles(source, stage).last() == if stage is GlUpload {
            ElementRole::GlSinkBin
        } else {
            ElementRole::Sink
        },
        required_roles(source, stage).contains(ElementRole::Sink),
{
    let required = required_roles(source, stage);
    let linked = linked_roles(source, stage);
    assert(required[0] == source_role(source));
    match stage {
        Stage::Direct => {
            assert(required[1] == ElementRole::Sink);
        },
        Stage::ColorConvert => {
            assert(required[1] == ElementRole::Converter);
            assert(required[2] == ElementRole::Sink);
        },
        Stage::GlUpload => {
            assert(required[1] == ElementRole::Sink);
            assert(required[2] == ElementRole::GlSinkBin);
        },
    }
}

/// What the role at position `i` does to the search from there on.
proof fn lemma_first_missing_from(roles: Seq<ElementRole>, probe: ElementProbe, i: int)
    requires
        0 <= i < roles.len(),
    ensures
        first_missing_role(roles.skip(i), probe) == if probe.has(roles[i]) {
            first_missing_role(roles.skip(i + 1), probe)
        } else {
            Some(roles[i])
        },
{
    assert(roles.skip(i)[0] == roles[i]);
    assert(roles.skip(i).drop_first() =~= roles.skip(i + 1));
}

/// The first of `roles` that the engine could not provide, if there is one.
#[verifier::loop_isolation(false)]
pub fn first_missing(roles: &Vec<ElementRole>, probe: &ElementProbe) -> (missing: Option<
    ElementRole,
>)
    ensures
        missing == first_missing_role(roles@, *probe),
        missing is None <==> has_all(roles@, *probe),
        missing matches Some(role) ==> is_first_missing(roles@, *probe, role),
{
    let ghost wanted = first_missing_role(roles@, *probe);
    proof {
        lemma_first_missing_role(roles@, *probe);
        assert(roles@.skip(0) =~= roles@);
    }
    let mut i: usize = 0;
    while i < roles.len()
        invariant
            i <= roles.len(),
            wanted == first_missing_role(roles@.skip(i as int), *probe),
        decreases roles.len() - i,
    {
        let role = roles[i];
        proof {
            lemma_first_missing_from(roles@, *probe, i as int);
        }
        if !probe.provides(role) {
            return Some(role);
        }
        i += 1;
    }
    assert(roles@.skip(i as int).len() == 0);
    None
}

/// What iterating over the elements of a bin gives, one item at a time.
#[derive(Debug, PartialEq, Eq)]
pub enum ScanItem {
    /// An element, with the name of the factory that made it.
    Element(String),
    /// An element that no factory made.
    Unnamed,
    /// The bin changed under the iteration.
    Resync,
    /// No more elements.
    End,
    /// The iteration failed.
    Failed,
}

/// Mathematical content of a [`ScanItem`].
pub enum ScanItemView {
    Element(Seq<char>),
    Unnamed,
    Resync,
    End,
    Failed,
}

impl View for ScanItem {
    type V = ScanItemView;

    open spec fn view(&self) -> ScanItemView {
        match self {
            ScanItem::Element(factory) => ScanItemView::Element(factory@),
            ScanItem::Unnamed => ScanItemView::Unnamed,
            ScanItem::Resync => ScanItemView::Resync,
            ScanItem::End => ScanItemView::End,
            ScanItem::Failed => ScanItemView::Failed,
        }
    }
}

impl Clone for ScanItem {
    fn clone(&self) -> (copy: ScanItem)
        ensures
            copy@ == self@,
    {
        match self {
            ScanItem::Element(factory) => ScanItem::Element(factory.clone()),
            ScanItem::Unnamed => ScanItem::Unnamed,
            ScanItem::Resync => ScanItem::Resync,
            ScanItem::End => ScanItem::End,
            ScanItem::Failed => ScanItem::Failed,
        }
    }
}

/// What to do after an item of the iteration.
#[derive(Clone, Copy, Debug, PartialEq, Eq, Structural)]
pub enum ScanStep {
    /// Not the one; ask for the next item.
    Next,
    /// Start the iteration over, then ask for the next item.
    Resync,
    /// This element is the one looked for.
    Take,
    /// The element is not there.
    GiveUp,
}

/// The step that an item calls for when looking for the element made by `wanted`.
pub open spec fn step_for(item: ScanItemView, wanted: Seq<char>) -> ScanStep {
    match item {
        ScanItemView::Element(factory) => if factory == wanted {
            ScanStep::Take
        } else {
            ScanStep::Next
        },
        ScanItemView::Unnamed => ScanStep::Next,
        ScanItemView::Resync => ScanStep::Resync,
        ScanItemView::End => ScanStep::GiveUp,
        ScanItemView::Failed => ScanStep::GiveUp,
    }
}

/// Decides what to do after one item while looking for the element that the
/// factory `wanted` made.
pub fn scan_step(item: &ScanItem, wanted: &str) -> (step: ScanStep)
    ensures
        step == step_for(item@, wanted@),
{
    match item {
        ScanItem::Element(factory) => {
            let sought: String = wanted.to_owned();
            if *factory == sought {
                ScanStep::Take
            } else {
                ScanStep::Next
            }
        },
        ScanItem::Unnamed => ScanStep::Next,
        ScanItem::Resync => ScanStep::Resync,
        ScanItem::End => ScanStep::GiveUp,
        ScanItem::Failed => ScanStep::GiveUp,
    }
}

/// The iteration over `items` stops at position `at`: nothing before it ends
/// the search, and the item there does.
pub open spec fn stops_at(items: Seq<ScanItemView>, wanted: Seq<char>, at: int) -> bool {
    &&& 0 <= at < items.len()
    &&& step_for(items[at], wanted) is Take || step_for(items[at], wanted) is GiveUp
    &&& forall|j: int|
        0 <= j < at ==> {
            let step = step_for(#[trigger] items[j], wanted);
            step is Next || step is Resync
        }
}

/// The items of a recorded iteration, as mathematical values.
pub open spec fn item_views(items: Seq<ScanItem>) -> Seq<ScanItemView> {
    Seq::new(items.len(), |i: int| items[i]@)
}

/// Runs the search over a recorded iteration. The answer is the position of
/// the element looked for, if the search comes to it before it comes to the
/// end, to a failure, or to the end of the record.
pub fn scan(items: &Vec<ScanItem>, wanted: &str) -> (found: Option<usize>)
    ensures
        match found {
            Some(at) => stops_at(item_views(items@), wanted@, at as int) && step_for(
                items[at as int]@,
                wanted@,
            ) is Take,
            None => forall|at: int|
                stops_at(item_views(items@), wanted@, at) ==> step_for(
                    #[trigger] items[at]@,
                    wanted@,
                ) is GiveUp,
        },
{
    let ghost views = item_views(items@);
    let mut i: usize = 0;
    while i < items.len()
        invariant
            i <= items.len(),
            views == item_views(items@),
            forall|j: int|
                0 <= j < i ==> {
                    let step = step_for(#[trigger] views[j], wanted@);
                    step is Next || step is Resync
                },
        decreases items.len() - i,
    {
        match scan_step(&items[i], wanted) {
            ScanStep::Take => {
                assert(views[i as int] == items[i as int]@);
                return Some(i);
            },
            ScanStep::GiveUp => {
                assert forall|at: int| stops_at(views, wanted@, at) implies step_for(
                    #[trigger] items[at]@,
                    wanted@,
                ) is GiveUp by {
                    assert(views[i as int] == items[i as int]@);
                    assert(views[at] == items[at]@);
                    if at < i {
                    } else if at > i {
                    }
                }
                return None;
            },
            _ => {
                assert(views[i as int] == items[i as int]@);
            },
        }
        i += 1;
    }
    assert forall|at: int| stops_at(views, wanted@, at) implies step_for(
        #[trigger] items[at]@,
        wanted@,
    ) is GiveUp by {
        assert(views[at] == items[at]@);
    }
    None
}

} // verus!
