//! The setup statements generated in front of an entry point's own body.

use crate::options::{
    parse_options, spec_apply_all, default_config, Color, Config, ConfigError, ConfigErrorView,
    ConfigView, OptionItem,
};
use vstd::prelude::*;

verus! {

/// One statement of a generated entry-point body. `S` is the type of the
/// statements that the author of the entry point wrote; they are carried
/// through untouched.
pub enum Statement<S> {
    /// Binds `title` to the configured title.
    BindTitle(String),
    /// Binds `window_width` to the configured width.
    BindWindowWidth(i32),
    /// Binds `window_height` to the configured height.
    BindWindowHeight(i32),
    /// Binds `background_color` to the configured color.
    BindBackgroundColor(Color),
    /// Initializes the windowing subsystem and binds its handle.
    InitWindowing,
    /// Obtains the video subsystem handle.
    ObtainVideo,
    /// Obtains the graphics attributes of the video subsystem.
    ObtainAttributes,
    /// Selects the core graphics profile.
    SelectCoreProfile,
    /// Selects the version of the graphics context.
    SelectVersion { major: u8, minor: u8 },
    /// Creates the window from `title`, `window_width` and `window_height`,
    /// resizable and able to hold a graphics context.
    CreateWindow,
    /// Creates the native graphics context of the window.
    CreateContext,
    /// Builds the context handle by resolving the native functions by name
    /// through the video subsystem.
    LoadContextHandle,
    /// Sets the viewport to the whole window and the clear color to
    /// `background_color`.
    SetViewportAndClearColor,
    /// A statement that the author wrote.
    User(S),
}

/// Mathematical content of a [`Statement`].
pub enum StatementView<S> {
    BindTitle(Seq<char>),
    BindWindowWidth(i32),
    BindWindowHeight(i32),
    BindBackgroundColor(Seq<Seq<u8>>),
    InitWindowing,
    ObtainVideo,
    ObtainAttributes,
    SelectCoreProfile,
    SelectVersion { major: u8, minor: u8 },
    CreateWindow,
    CreateContext,
    LoadContextHandle,
    SetViewportAndClearColor,
    User(S),
}

impl<S> View for Statement<S> {
    type V = StatementView<S>;

    open spec fn view(&self) -> StatementView<S> {
        match self {
            Statement::BindTitle(t) => StatementView::BindTitle(t@),
            Statement::BindWindowWidth(w) => StatementView::BindWindowWidth(*w),
            Statement::BindWindowHeight(h) => StatementView::BindWindowHeight(*h),
            Statement::BindBackgroundColor(c) => StatementView::BindBackgroundColor(c@),
            Statement::InitWindowing => StatementView::InitWindowing,
            Statement::ObtainVideo => StatementView::ObtainVideo,
            Statement::ObtainAttributes => StatementView::ObtainAttributes,
            Statement::SelectCoreProfile => StatementView::SelectCoreProfile,
            Statement::SelectVersion { major, minor } => StatementView::SelectVersion {
                major: *major,
                minor: *minor,
            },
            Statement::CreateWindow => StatementView::CreateWindow,
            Statement::CreateContext => StatementView::CreateContext,
            Statement::LoadContextHandle => StatementView::LoadContextHandle,
            Statement::SetViewportAndClearColor => StatementView::SetViewportAndClearColor,
            Statement::User(s) => StatementView::User(*s),
        }
    }
}

/// How many statements are generated in front of the author's body.
pub const SETUP_LEN: usize = 13;

/// The statements generated for `cfg`, in order.
pub open spec fn setup<S>(cfg: ConfigView) -> Seq<StatementView<S>> {
    seq![
        StatementView::BindTitle(cfg.title),
        StatementView::BindWindowWidth(cfg.width),
        StatementView::BindWindowHeight(cfg.height),
        StatementView::BindBackgroundColor(cfg.color),
        StatementView::InitWindowing,
        StatementView::ObtainVideo,
        StatementView::ObtainAttributes,
        StatementView::SelectCoreProfile,
        StatementView::SelectVersion { major: 4, minor: 5 },
        StatementView::CreateWindow,
        StatementView::CreateContext,
        StatementView::LoadContextHandle,
        StatementView::SetViewportAndClearColor,
    ]
}

/// The author's statements, each marked as such.
pub open spec fn carried<S>(body: Seq<S>) -> Seq<StatementView<S>> {
    Seq::new(body.len(), |i: int| StatementView::User(body[i]))
}

/// Mathematical content of a statement list.
pub open spec fn statements_view<S>(stmts: Seq<Statement<S>>) -> Seq<StatementView<S>> {
    Seq::new(stmts.len(), |i: int| stmts[i]@)
}

/// The whole generated body: the setup for `cfg`, then the author's body.
pub open spec fn spec_generate<S>(cfg: ConfigView, body: Seq<S>) -> Seq<StatementView<S>> {
    setup::<S>(cfg) + carried(body)
}

/// A generated body is as long as the setup and the author's body together,
/// begins with the setup, and ends with the author's statements, each in its
/// place.
pub proof fn lemma_generated_shape<S>(cfg: ConfigView, body: Seq<S>)
    ensures
        spec_generate(cfg, body).len() == SETUP_LEN + body.len(),
        spec_generate(cfg, body).subrange(0, SETUP_LEN as int) == setup::<S>(cfg),
        spec_generate(cfg, body).subrange(SETUP_LEN as int, SETUP_LEN + body.len()) == carried(
            body,
        ),
        forall|i: int|
            0 <= i < body.len() ==> #[trigger] spec_generate(cfg, body)[SETUP_LEN + i]
                == StatementView::User(body[i]),
{
    let all = spec_generate(cfg, body);
    assert(all.subrange(0, SETUP_LEN as int) =~= setup::<S>(cfg));
    assert(all.subrange(SETUP_LEN as int, SETUP_LEN + body.len()) =~= carried(body));
}

/// Generates the body of an entry point: the setup statements for `config`,
/// followed by the statements of `body`, unchanged and in their order.
pub fn generate<S>(config: Config, body: Vec<S>) -> (out: Vec<Statement<S>>)
    requires
        body@.len() + SETUP_LEN <= usize::MAX,
    ensures
        statements_view(out@) == spec_generate(config@, body@),
        out@.len() == SETUP_LEN + body@.len(),
        forall|i: int| 0 <= i < body@.len() ==> (#[trigger] out@[SETUP_LEN + i])@
            == StatementView::User(body@[i]),
{
    let ghost given = body@;
    let ghost cfg = config@;
    let mut body = body;
    let mut out: Vec<Statement<S>> = Vec::new();
    out.push(Statement::BindTitle(config.title));
    out.push(Statement::BindWindowWidth(config.width));
    out.push(Statement::BindWindowHeight(config.height));
    out.push(Statement::BindBackgroundColor(config.background_color));
    out.push(Statement::InitWindowing);
    out.push(Statement::ObtainVideo);
    out.push(Statement::ObtainAttributes);
    out.push(Statement::SelectCoreProfile);
    out.push(Statement::SelectVersion { major: 4, minor: 5 });
    out.push(Statement::CreateWindow);
    out.push(Statement::CreateContext);
    out.push(Statement::LoadContextHandle);
    out.push(Statement::SetViewportAndClearColor);
    assert(statements_view(out@) =~= setup::<S>(cfg));
    let mut stack: Vec<S> = Vec::new();
    while body.len() > 0
        invariant
            body@.len() + stack@.len() == given.len(),
            body@ == given.subrange(0, body@.len() as int),
            forall|j: int|
                0 <= j < stack@.len() ==> #[trigger] stack@[j] == given[given.len() - 1 - j],
        decreases body@.len(),
    {
        match body.pop() {
            Some(s) => {
                stack.push(s);
            },
            None => {},
        }
    }
    let mut done: usize = 0;
    while stack.len() > 0
        invariant
            stack@.len() + done == given.len(),
            given.len() + SETUP_LEN <= usize::MAX,
            out@.len() == SETUP_LEN + done,
            forall|j: int|
                0 <= j < stack@.len() ==> #[trigger] stack@[j] == given[given.len() - 1 - j],
            statements_view(out@.subrange(0, SETUP_LEN as int)) == setup::<S>(cfg),
            forall|j: int|
                0 <= j < done ==> (#[trigger] out@[SETUP_LEN + j])@ == StatementView::User(
                    given[j],
                ),
        decreases stack@.len(),
    {
        let ghost before = out@;
        match stack.pop() {
            Some(s) => {
                out.push(Statement::User(s));
                done += 1;
            },
            None => {},
        }
        assert(out@.subrange(0, SETUP_LEN as int) == before.subrange(0, SETUP_LEN as int));
    }
    proof {
        let got = statements_view(out@);
        let want = spec_generate::<S>(cfg, given);
        assert(got.len() == want.len());
        assert forall|i: int| 0 <= i < got.len() implies got[i] == want[i] by {
            if i < SETUP_LEN {
                assert(statements_view(out@.subrange(0, SETUP_LEN as int))[i] == out@[i]@);
            } else {
                assert(out@[SETUP_LEN + (i - SETUP_LEN)]@ == StatementView::User(
                    given[i - SETUP_LEN],
                ));
            }
        }
        assert(got =~= want);
    }
    out
}

/// Rewrites an entry point: reads the options attached to it and, where they
/// are accepted, generates the new body from them and from the author's
/// `body`. Where an option is rejected nothing is generated.
pub fn ogl_main<S>(items: &Vec<OptionItem>, body: Vec<S>) -> (r: Result<
    Vec<Statement<S>>,
    ConfigError,
>)
    requires
        body@.len() + SETUP_LEN <= usize::MAX,
    ensures
        match r {
            Ok(out) => match spec_apply_all(default_config(), items@) {
                Ok(cfg) => statements_view(out@) == spec_generate(cfg, body@),
                Err(_) => false,
            },
            Err(e) => spec_apply_all(default_config(), items@) == Err::<
                ConfigView,
                ConfigErrorView,
            >(e@),
        },
{
    match parse_options(items) {
        Ok(config) => Ok(generate(config, body)),
        Err(e) => Err(e),
    }
}

} // verus!
