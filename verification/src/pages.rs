//! The pages of the portal: what each one answers to a request.
//!
//! A page that loads in two phases answers a full load with its shell and a
//! fragment request with its content, behind the page's gate. A page that
//! loads in one phase has no shell: its gate stands before everything.

use vstd::prelude::*;
use vstd::string::StringExecFns;
use crate::access::{admits, authorize, is_privileged, privileged, Gate, Identity, PermissionDenied};
use crate::request::RequestMode;
use crate::stats::{begin_view, CounterStep, HOME_PAGE, INFO_PAGE};
use crate::text::{push_signed_decimal, signed_decimal};
use crate::variant::{fragment_for, fragment_variant, resolution_of, RequestContext, ViewVariant};

verus! {

/// What the shell of a page shows while its content is on the way.
#[derive(Clone, Debug, PartialEq, Eq)]
pub struct ShellMeta {
    pub title: String,
    pub description: String,
    pub uri: String,
    pub image: String,
}

/// A shell as text.
pub ghost struct ShellText {
    pub title: Seq<char>,
    pub description: Seq<char>,
    pub uri: Seq<char>,
    pub image: Seq<char>,
}

impl View for ShellMeta {
    type V = ShellText;

    open spec fn view(&self) -> ShellText {
        ShellText {
            title: self.title@,
            description: self.description@,
            uri: self.uri@,
            image: self.image@,
        }
    }
}

/// The content of a page for one audience.
#[derive(Clone, Copy, Debug, PartialEq, Eq, Structural)]
pub struct ContentPlan {
    /// The fragment to render.
    pub variant: ViewVariant,
    /// The page type whose view is to be counted, where the page counts.
    pub counted_page: Option<i16>,
    /// Whether content for superusers only is shown.
    pub privileged: bool,
}

/// What a page answers where it does not deny.
#[derive(Clone, Debug, PartialEq, Eq)]
pub enum PageView {
    Shell(ShellMeta),
    Content(ContentPlan),
}

/// An answer with its shell as text.
pub ghost enum PageText {
    Shell(ShellText),
    Content(ContentPlan),
}

impl View for PageView {
    type V = PageText;

    open spec fn view(&self) -> PageText {
        match self {
            PageView::Shell(meta) => PageText::Shell(meta@),
            PageView::Content(plan) => PageText::Content(*plan),
        }
    }
}

/// A category, as far as its pages read it.
#[derive(Clone, Debug, PartialEq, Eq)]
pub struct CategorySummary {
    pub id: i32,
    pub name: String,
    pub image: String,
}

/// An item, as far as its pages read it.
#[derive(Clone, Debug, PartialEq, Eq)]
pub struct ItemSummary {
    pub id: i32,
    pub title: String,
    pub user_id: i32,
    pub image: String,
}

/// A file, as far as its pages read it.
#[derive(Clone, Copy, Debug, PartialEq, Eq, Structural)]
pub struct FileSummary {
    pub id: i32,
    pub user_id: i32,
}

/// The images next to one image of an item.
#[derive(Clone, Copy, Debug, PartialEq, Eq, Structural)]
pub struct ImageNeighbours {
    pub prev: Option<i32>,
    pub next: Option<i32>,
}

/// An answer, or the denial, with the shell as text.
pub open spec fn answer_text(r: Result<PageView, PermissionDenied>) -> Result<
    PageText,
    PermissionDenied,
> {
    match r {
        Ok(view) => Ok(view@),
        Err(denied) => Err(denied),
    }
}

/// The image of a shell that has none of its own.
pub open spec fn default_image() -> Seq<char> {
    "/static/images/dark/store.jpg"@
}

/// The words that stand before a page's title in its description.
pub open spec fn site_prefix() -> Seq<char> {
    "вебсервисы.рф: "@
}

/// The shell of a page: the description is the title behind the site's name.
pub open spec fn shell_text(title: Seq<char>, uri: Seq<char>, image: Seq<char>) -> ShellText {
    ShellText { title, description: site_prefix() + title, uri, image }
}

/// The address of the page of the object `id` under `base`.
pub open spec fn object_uri(base: Seq<char>, id: int) -> Seq<char> {
    base + signed_decimal(id) + "/"@
}

/// The content of a page for the audience of `ctx`.
pub open spec fn content_for(ctx: RequestContext, counted_page: Option<i16>) -> ContentPlan {
    ContentPlan {
        variant: fragment_for(ctx.device_class, ctx.principal is Some),
        counted_page,
        privileged: privileged(ctx.principal),
    }
}

/// The answer of a page that loads in one phase.
pub open spec fn direct_answer(ctx: RequestContext, gate: Gate, counted_page: Option<i16>) -> Result<
    PageText,
    PermissionDenied,
> {
    if admits(gate, ctx.principal) {
        Ok(PageText::Content(content_for(ctx, counted_page)))
    } else {
        Err(PermissionDenied)
    }
}

/// The answer of a page that loads in two phases.
pub open spec fn two_phase_answer(
    ctx: RequestContext,
    gate: Gate,
    shell: ShellText,
    counted_page: Option<i16>,
) -> Result<PageText, PermissionDenied> {
    match ctx.mode {
        RequestMode::FullLoad => Ok(PageText::Shell(shell)),
        RequestMode::Fragment => direct_answer(ctx, gate, counted_page),
    }
}

/// The place of the last `id` among `ids`.
pub open spec fn last_position(ids: Seq<i32>, id: i32) -> Option<int>
    decreases ids.len(),
{
    if ids.len() == 0 {
        None
    } else if ids.last() == id {
        Some(ids.len() - 1)
    } else {
        last_position(ids.drop_last(), id)
    }
}

/// The images before and after the last `id` among `ids`; none where `id` is
/// not among them.
pub open spec fn neighbours_of(ids: Seq<i32>, id: i32) -> ImageNeighbours {
    match last_position(ids, id) {
        Some(at) => ImageNeighbours {
            prev: if at > 0 {
                Some(ids[at - 1])
            } else {
                None
            },
            next: if at + 1 < ids.len() {
                Some(ids[at + 1])
            } else {
                None
            },
        },
        None => ImageNeighbours { prev: None, next: None },
    }
}

/// Whether an object of the kind `types` is entered in the form for business
/// objects.
pub open spec fn business_kind(types: i16) -> bool {
    types == 2 || types == 3 || types == 5
}

/// The shell with the default image.
fn plain_shell(title: &str, uri: &str) -> (meta: ShellMeta)
    ensures
        meta@ == shell_text(title@, uri@, default_image()),
{
    let mut description = String::from_str("вебсервисы.рф: ");
    description.append(title);
    ShellMeta {
        title: String::from_str(title),
        description,
        uri: String::from_str(uri),
        image: String::from_str("/static/images/dark/store.jpg"),
    }
}

/// The shell of the page of one object.
fn object_shell(heading: &str, name: &str, base: &str, id: i32, image: &str) -> (meta: ShellMeta)
    ensures
        meta@ == shell_text(heading@ + name@, object_uri(base@, id as int), image@),
{
    let mut title = String::from_str(heading);
    title.append(name);
    let mut description = String::from_str("вебсервисы.рф: ");
    description.append(title.as_str());
    let mut uri = String::from_str(base);
    push_signed_decimal(&mut uri, id as i64);
    uri.append("/");
    ShellMeta { title, description, uri, image: String::from_str(image) }
}

/// The content of a page behind `gate`, for the audience of `ctx`.
fn content(ctx: &RequestContext, gate: Gate, counted_page: Option<i16>) -> (r: Result<
    PageView,
    PermissionDenied,
>)
    ensures
        answer_text(r) == direct_answer(*ctx, gate, counted_page),
{
    match authorize(gate, &ctx.principal) {
        Ok(()) => Ok(
            PageView::Content(
                ContentPlan {
                    variant: fragment_variant(ctx.device_class, ctx.principal.is_some()),
                    counted_page,
                    privileged: is_privileged(&ctx.principal),
                },
            ),
        ),
        Err(denied) => Err(denied),
    }
}

/// The counting that the content asks for: the counter at its first step
/// for the page that the content names, none where it names no page.
pub open spec fn counting_for(plan: ContentPlan) -> Option<CounterStep> {
    match plan.counted_page {
        Some(page_type) => Some(CounterStep::Lookup { page_type, retried: false }),
        None => None,
    }
}

/// The counting that the content asks for.
pub fn counting_of(plan: &ContentPlan) -> (step: Option<CounterStep>)
    ensures
        step == counting_for(*plan),
{
    match plan.counted_page {
        Some(page_type) => Some(begin_view(page_type)),
        None => None,
    }
}

/// The page for an address that names nothing.
pub fn not_found(ctx: &RequestContext) -> (r: Result<PageView, PermissionDenied>)
    ensures
        answer_text(r) == two_phase_answer(
            *ctx,
            Gate::Public,
            shell_text("Страница не найдена"@, "/not_found/"@, default_image()),
            None,
        ),
{
    match ctx.mode {
        RequestMode::FullLoad => Ok(PageView::Shell(plain_shell("Страница не найдена", "/not_found/"))),
        RequestMode::Fragment => content(ctx, Gate::Public, None),
    }
}

/// The shell of the home page.
pub open spec fn index_shell() -> ShellText {
    ShellText {
        title: "Главная страница"@,
        description: "вебсервисы - Комплексное, экспертное создание и развитие высоконагруженных веб-ресурсов"@,
        uri: "/"@,
        image: default_image(),
    }
}

/// The home page. Its content counts a view of the home page.
pub fn index_page(ctx: &RequestContext) -> (r: Result<PageView, PermissionDenied>)
    ensures
        answer_text(r) == two_phase_answer(*ctx, Gate::Public, index_shell(), Some(HOME_PAGE)),
{
    match ctx.mode {
        RequestMode::FullLoad => Ok(
            PageView::Shell(
                ShellMeta {
                    title: String::from_str("Главная страница"),
                    description: String::from_str(
                        "вебсервисы - Комплексное, экспертное создание и развитие высоконагруженных веб-ресурсов",
                    ),
                    uri: String::from_str("/"),
                    image: String::from_str("/static/images/dark/store.jpg"),
                },
            ),
        ),
        RequestMode::Fragment => content(ctx, Gate::Public, Some(HOME_PAGE)),
    }
}

/// The shell of the information page.
pub open spec fn info_shell() -> ShellText {
    ShellText {
        title: "Информация"@,
        description: "вебсервисы.рф: Информация о нас, о сайте, контакты, вкладка помощи"@,
        uri: "/info/"@,
        image: default_image(),
    }
}

/// The information page. Its content counts a view of the information page.
pub fn info_page(ctx: &RequestContext) -> (r: Result<PageView, PermissionDenied>)
    ensures
        answer_text(r) == two_phase_answer(*ctx, Gate::Public, info_shell(), Some(INFO_PAGE)),
{
    match ctx.mode {
        RequestMode::FullLoad => Ok(
            PageView::Shell(
                ShellMeta {
                    title: String::from_str("Информация"),
                    description: String::from_str(
                        "вебсервисы.рф: Информация о нас, о сайте, контакты, вкладка помощи",
                    ),
                    uri: String::from_str("/info/"),
                    image: String::from_str("/static/images/dark/store.jpg"),
                },
            ),
        ),
        RequestMode::Fragment => content(ctx, Gate::Public, Some(INFO_PAGE)),
    }
}

/// The page of what the visitor has seen.
pub fn history_page(ctx: &RequestContext) -> (r: Result<PageView, PermissionDenied>)
    ensures
        answer_text(r) == two_phase_answer(
            *ctx,
            Gate::Public,
            ShellText {
                title: "История просмотров"@,
                description: "вебсервисы.рф: История просмотров пользователя"@,
                uri: "/history/"@,
                image: default_image(),
            },
            None,
        ),
{
    match ctx.mode {
        RequestMode::FullLoad => Ok(
            PageView::Shell(
                ShellMeta {
                    title: String::from_str("История просмотров"),
                    description: String::from_str("вебсервисы.рф: История просмотров пользователя"),
                    uri: String::from_str("/history/"),
                    image: String::from_str("/static/images/dark/store.jpg"),
                },
            ),
        ),
        RequestMode::Fragment => content(ctx, Gate::Public, None),
    }
}

/// The list of feedback, for superusers. It loads in one phase.
pub fn feedback_list_page(ctx: &RequestContext) -> (r: Result<PageView, PermissionDenied>)
    ensures
        answer_text(r) == direct_answer(*ctx, Gate::Superuser, None),
{
    content(ctx, Gate::Superuser, None)
}

/// The list of options and services.
pub fn serve_list_page(ctx: &RequestContext) -> (r: Result<PageView, PermissionDenied>)
    ensures
        answer_text(r) == two_phase_answer(
            *ctx,
            Gate::Public,
            shell_text("Список опций и услуг"@, "/serve_list/"@, default_image()),
            None,
        ),
{
    match ctx.mode {
        RequestMode::FullLoad => Ok(
            PageView::Shell(plain_shell("Список опций и услуг", "/serve_list/")),
        ),
        RequestMode::Fragment => content(ctx, Gate::Public, None),
    }
}

/// The statistics of the site's visitors.
pub fn cookie_users_list_page(ctx: &RequestContext) -> (r: Result<PageView, PermissionDenied>)
    ensures
        answer_text(r) == two_phase_answer(
            *ctx,
            Gate::Public,
            shell_text("Общая статистика сайта"@, "/cookie_users_list/"@, default_image()),
            None,
        ),
{
    match ctx.mode {
        RequestMode::FullLoad => Ok(
            PageView::Shell(plain_shell("Общая статистика сайта", "/cookie_users_list/")),
        ),
        RequestMode::Fragment => content(ctx, Gate::Public, None),
    }
}

/// The views of one visitor, for superusers.
pub fn get_user_history_page(principal: &Option<Identity>) -> (r: Result<(), PermissionDenied>)
    ensures
        r is Ok <==> admits(Gate::Superuser, *principal),
{
    authorize(Gate::Superuser, principal)
}

/// The objects of a technical category: whether those for superusers only
/// are among them.
pub fn get_tech_objects_page(principal: &Option<Identity>) -> (is_admin: bool)
    ensures
        is_admin == privileged(*principal),
{
    is_privileged(principal)
}

/// The form for an object of the kind `types`, for superusers: whether it is
/// the form for business objects.
pub fn unical_object_form_page(principal: &Option<Identity>, types: i16) -> (r: Result<
    bool,
    PermissionDenied,
>)
    ensures
        r == if admits(Gate::Superuser, *principal) {
            Ok::<bool, PermissionDenied>(business_kind(types))
        } else {
            Err::<bool, PermissionDenied>(PermissionDenied)
        },
{
    match authorize(Gate::Superuser, principal) {
        Ok(()) => Ok(types == 2 || types == 3 || types == 5),
        Err(denied) => Err(denied),
    }
}

/// The page on which a category is created, for superusers.
pub fn create_category_page(ctx: &RequestContext) -> (r: Result<PageView, PermissionDenied>)
    ensures
        answer_text(r) == two_phase_answer(
            *ctx,
            Gate::Superuser,
            shell_text("Создание категории"@, "/create_category/"@, default_image()),
            None,
        ),
{
    match ctx.mode {
        RequestMode::FullLoad => Ok(
            PageView::Shell(plain_shell("Создание категории", "/create_category/")),
        ),
        RequestMode::Fragment => content(ctx, Gate::Superuser, None),
    }
}

/// The page on which a category is changed, for superusers.
pub fn edit_category_page(ctx: &RequestContext, category: &CategorySummary) -> (r: Result<
    PageView,
    PermissionDenied,
>)
    ensures
        answer_text(r) == two_phase_answer(
            *ctx,
            Gate::Superuser,
            shell_text(
                "Изменение категории "@ + category.name@,
                object_uri("/edit_category/"@, category.id as int),
                category.image@,
            ),
            None,
        ),
{
    match ctx.mode {
        RequestMode::FullLoad => Ok(
            PageView::Shell(
                object_shell(
                    "Изменение категории ",
                    category.name.as_str(),
                    "/edit_category/",
                    category.id,
                    category.image.as_str(),
                ),
            ),
        ),
        RequestMode::Fragment => content(ctx, Gate::Superuser, None),
    }
}

/// The page on which an item is created, for superusers.
pub fn create_item_page(ctx: &RequestContext) -> (r: Result<PageView, PermissionDenied>)
    ensures
        answer_text(r) == two_phase_answer(
            *ctx,
            Gate::Superuser,
            shell_text("Создание объекта"@, "/create_item/"@, default_image()),
            None,
        ),
{
    match ctx.mode {
        RequestMode::FullLoad => Ok(PageView::Shell(plain_shell("Создание объекта", "/create_item/"))),
        RequestMode::Fragment => content(ctx, Gate::Superuser, None),
    }
}

/// The page on which an item is changed, for its owner and for superusers.
pub fn edit_item_page(ctx: &RequestContext, item: &ItemSummary) -> (r: Result<
    PageView,
    PermissionDenied,
>)
    ensures
        answer_text(r) == two_phase_answer(
            *ctx,
            Gate::OwnerOrSuperuser { owner_id: item.user_id },
            shell_text(
                "Изменение объекта "@ + item.title@,
                object_uri("/edit_item/"@, item.id as int),
                item.image@,
            ),
            None,
        ),
{
    match ctx.mode {
        RequestMode::FullLoad => Ok(
            PageView::Shell(
                object_shell(
                    "Изменение объекта ",
                    item.title.as_str(),
                    "/edit_item/",
                    item.id,
                    item.image.as_str(),
                ),
            ),
        ),
        RequestMode::Fragment => content(
            ctx,
            Gate::OwnerOrSuperuser { owner_id: item.user_id },
            None,
        ),
    }
}

/// The page on which the text of an item is changed, for its owner and for
/// superusers.
pub fn edit_content_item_page(ctx: &RequestContext, item: &ItemSummary) -> (r: Result<
    PageView,
    PermissionDenied,
>)
    ensures
        answer_text(r) == two_phase_answer(
            *ctx,
            Gate::OwnerOrSuperuser { owner_id: item.user_id },
            shell_text(
                "Изменение текста объекта "@ + item.title@,
                object_uri("/edit_content_item/"@, item.id as int),
                item.image@,
            ),
            None,
        ),
{
    match ctx.mode {
        RequestMode::FullLoad => Ok(
            PageView::Shell(
                object_shell(
                    "Изменение текста объекта ",
                    item.title.as_str(),
                    "/edit_content_item/",
                    item.id,
                    item.image.as_str(),
                ),
            ),
        ),
        RequestMode::Fragment => content(
            ctx,
            Gate::OwnerOrSuperuser { owner_id: item.user_id },
            None,
        ),
    }
}

/// The page on which a file is changed, for its owner and for superusers.
pub fn edit_file_page(ctx: &RequestContext, file: &FileSummary) -> (r: Result<
    PageView,
    PermissionDenied,
>)
    ensures
        answer_text(r) == two_phase_answer(
            *ctx,
            Gate::OwnerOrSuperuser { owner_id: file.user_id },
            shell_text(
                "Изменение файла"@,
                object_uri("/edit_file/"@, file.id as int),
                default_image(),
            ),
            None,
        ),
{
    match ctx.mode {
        RequestMode::FullLoad => {
            let mut description = String::from_str("вебсервисы.рф: ");
            description.append("Изменение файла");
            let mut uri = String::from_str("/edit_file/");
            push_signed_decimal(&mut uri, file.id as i64);
            uri.append("/");
            Ok(
                PageView::Shell(
                    ShellMeta {
                        title: String::from_str("Изменение файла"),
                        description,
                        uri,
                        image: String::from_str("/static/images/dark/store.jpg"),
                    },
                ),
            )
        },
        RequestMode::Fragment => content(
            ctx,
            Gate::OwnerOrSuperuser { owner_id: file.user_id },
            None,
        ),
    }
}

/// The images before and after the image `id` of an item whose images are
/// `images`.
pub fn image_page(images: &Vec<i32>, id: i32) -> (near: ImageNeighbours)
    ensures
        near == neighbours_of(images@, id),
{
    let mut i: usize = images.len();
    assert(images@.take(i as int) =~= images@);
    while i > 0
        invariant
            i <= images.len(),
            last_position(images@, id) == last_position(images@.take(i as int), id),
        decreases i,
    {
        let ghost upto = images@.take(i as int);
        assert(upto.last() == images@[i - 1]);
        assert(upto.drop_last() =~= images@.take(i - 1));
        if images[i - 1] == id {
            let at: usize = i - 1;
            let prev = if at > 0 {
                Some(images[at - 1])
            } else {
                None
            };
            let next = if at + 1 < images.len() {
                Some(images[at + 1])
            } else {
                None
            };
            return ImageNeighbours { prev, next };
        }
        i -= 1;
    }
    assert(images@.take(0).len() == 0);
    ImageNeighbours { prev: None, next: None }
}

/// The last position is a position of `id`, and no later one is.
pub proof fn lemma_last_position(ids: Seq<i32>, id: i32)
    ensures
        match last_position(ids, id) {
            Some(at) => 0 <= at < ids.len() && ids[at] == id && forall|j: int|
                at < j < ids.len() ==> ids[j] != id,
            None => forall|j: int| 0 <= j < ids.len() ==> ids[j] != id,
        },
    decreases ids.len(),
{
    if ids.len() > 0 && ids.last() != id {
        lemma_last_position(ids.drop_last(), id);
        assert forall|j: int| 0 <= j < ids.len() - 1 implies ids.drop_last()[j] == ids[j] by {}
    }
}

/// A page that loads in two phases answers every full load with its shell:
/// no identity is asked for and no gate stands before it.
pub proof fn lemma_shell_is_public(
    ctx: RequestContext,
    gate: Gate,
    shell: ShellText,
    counted_page: Option<i16>,
)
    requires
        ctx.mode == RequestMode::FullLoad,
    ensures
        two_phase_answer(ctx, gate, shell, counted_page) == Ok::<PageText, PermissionDenied>(
            PageText::Shell(shell),
        ),
{
}

/// The content of a page is the fragment that the selector gives a fragment
/// request of the same audience, and it is there exactly where the page's
/// gate lets the principal pass.
pub proof fn lemma_content_follows_selector(ctx: RequestContext, gate: Gate, counted_page: Option<i16>)
    ensures
        direct_answer(ctx, gate, counted_page) is Ok <==> admits(gate, ctx.principal),
        direct_answer(ctx, gate, counted_page) matches Ok(PageText::Content(plan)) ==> plan.variant
            == (RequestContext { mode: RequestMode::Fragment, ..ctx }).variant(),
{
}

/// A page that loads in two phases answers as the selector resolves the
/// request behind the page's gate: the shell for the shell variant, the
/// content for the fragment, the denial for the denial.
pub proof fn lemma_answer_follows_resolution(
    ctx: RequestContext,
    gate: Gate,
    shell: ShellText,
    counted_page: Option<i16>,
)
    ensures
        match two_phase_answer(ctx, gate, shell, counted_page) {
            Ok(PageText::Shell(sent)) => sent == shell && resolution_of(ctx, gate) == Ok::<
                ViewVariant,
                PermissionDenied,
            >(ViewVariant::FullShellVariant),
            Ok(PageText::Content(plan)) => resolution_of(ctx, gate) == Ok::<
                ViewVariant,
                PermissionDenied,
            >(plan.variant) && plan.counted_page == counted_page,
            Err(denied) => resolution_of(ctx, gate) == Err::<ViewVariant, PermissionDenied>(denied),
        },
{
}

} // verus!
