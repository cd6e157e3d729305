use portal::access::{Identity, PermissionDenied};
use portal::blogs::{all_blogs_page, create_blog, delete_blog, edit_blog, get_blog_page};
use portal::pages::{
    cookie_users_list_page, create_category_page, create_item_page, edit_category_page,
    edit_content_item_page, edit_file_page, edit_item_page, feedback_list_page,
    get_tech_objects_page, get_user_history_page, history_page, image_page, index_page, info_page,
    not_found, serve_list_page, unical_object_form_page, CategorySummary, ContentPlan, FileSummary,
    ImageNeighbours, ItemSummary, PageView, ShellMeta,
};
use portal::request::{DeviceClass, RequestMode};
use portal::variant::{RequestContext, ViewVariant};

const IMAGE: &str = "/static/images/dark/store.jpg";

fn full_load(principal: Option<Identity>) -> RequestContext {
    RequestContext::new(DeviceClass::Desktop, RequestMode::FullLoad, principal)
}

fn fragment(device: DeviceClass, principal: Option<Identity>) -> RequestContext {
    RequestContext::new(device, RequestMode::Fragment, principal)
}

fn shell(title: &str, description: &str, uri: &str, image: &str) -> Result<PageView, PermissionDenied> {
    Ok(PageView::Shell(ShellMeta {
        title: title.to_string(),
        description: description.to_string(),
        uri: uri.to_string(),
        image: image.to_string(),
    }))
}

fn content(variant: ViewVariant, counted_page: Option<i16>, privileged: bool) -> Result<PageView, PermissionDenied> {
    Ok(PageView::Content(ContentPlan { variant, counted_page, privileged }))
}

fn item() -> ItemSummary {
    ItemSummary { id: 15, title: "Сайт".to_string(), user_id: 8, image: "/media/i.png".to_string() }
}

#[test]
fn shells_of_the_plain_pages() {
    let ctx = full_load(None);
    assert_eq!(
        not_found(&ctx),
        shell("Страница не найдена", "вебсервисы.рф: Страница не найдена", "/not_found/", IMAGE)
    );
    assert_eq!(
        index_page(&ctx),
        shell(
            "Главная страница",
            "вебсервисы - Комплексное, экспертное создание и развитие высоконагруженных веб-ресурсов",
            "/",
            IMAGE
        )
    );
    assert_eq!(
        info_page(&ctx),
        shell(
            "Информация",
            "вебсервисы.рф: Информация о нас, о сайте, контакты, вкладка помощи",
            "/info/",
            IMAGE
        )
    );
    assert_eq!(
        history_page(&ctx),
        shell("История просмотров", "вебсервисы.рф: История просмотров пользователя", "/history/", IMAGE)
    );
    assert_eq!(
        serve_list_page(&ctx),
        shell("Список опций и услуг", "вебсервисы.рф: Список опций и услуг", "/serve_list/", IMAGE)
    );
    assert_eq!(
        cookie_users_list_page(&ctx),
        shell(
            "Общая статистика сайта",
            "вебсервисы.рф: Общая статистика сайта",
            "/cookie_users_list/",
            IMAGE
        )
    );
    assert_eq!(
        create_category_page(&ctx),
        shell("Создание категории", "вебсервисы.рф: Создание категории", "/create_category/", IMAGE)
    );
    assert_eq!(
        create_item_page(&ctx),
        shell("Создание объекта", "вебсервисы.рф: Создание объекта", "/create_item/", IMAGE)
    );
}

#[test]
fn shells_of_the_object_pages() {
    let ctx = full_load(None);
    let category = CategorySummary { id: 3, name: "Новости".to_string(), image: "/media/c.png".to_string() };
    assert_eq!(
        edit_category_page(&ctx, &category),
        shell(
            "Изменение категории Новости",
            "вебсервисы.рф: Изменение категории Новости",
            "/edit_category/3/",
            "/media/c.png"
        )
    );
    assert_eq!(
        edit_item_page(&ctx, &item()),
        shell(
            "Изменение объекта Сайт",
            "вебсервисы.рф: Изменение объекта Сайт",
            "/edit_item/15/",
            "/media/i.png"
        )
    );
    assert_eq!(
        edit_content_item_page(&ctx, &item()),
        shell(
            "Изменение текста объекта Сайт",
            "вебсервисы.рф: Изменение текста объекта Сайт",
            "/edit_content_item/15/",
            "/media/i.png"
        )
    );
    assert_eq!(
        edit_file_page(&ctx, &FileSummary { id: 120, user_id: 8 }),
        shell("Изменение файла", "вебсервисы.рф: Изменение файла", "/edit_file/120/", IMAGE)
    );
    assert_eq!(
        edit_file_page(&ctx, &FileSummary { id: -4, user_id: 8 }),
        shell("Изменение файла", "вебсервисы.рф: Изменение файла", "/edit_file/-4/", IMAGE)
    );
}

#[test]
fn shell_is_sent_whoever_asks() {
    for who in [None, Some(Identity::new(1, 0)), Some(Identity::new(2, 60))] {
        for device in [DeviceClass::Desktop, DeviceClass::Mobile] {
            let ctx = RequestContext::new(device, RequestMode::FullLoad, who);
            assert!(matches!(create_category_page(&ctx), Ok(PageView::Shell(_))));
            assert!(matches!(edit_item_page(&ctx, &item()), Ok(PageView::Shell(_))));
            assert!(matches!(index_page(&ctx), Ok(PageView::Shell(_))));
        }
    }
}

#[test]
fn home_page_content_counts_the_home_page() {
    let anonymous = fragment(DeviceClass::Desktop, None);
    assert_eq!(index_page(&anonymous), content(ViewVariant::AnonymousDesktopFragment, Some(1), false));
    let admin = fragment(DeviceClass::Mobile, Some(Identity::new(1, 60)));
    assert_eq!(index_page(&admin), content(ViewVariant::AuthenticatedMobileFragment, Some(1), true));
    let user = fragment(DeviceClass::Desktop, Some(Identity::new(1, 10)));
    assert_eq!(index_page(&user), content(ViewVariant::AuthenticatedDesktopFragment, Some(1), false));
}

#[test]
fn information_page_content_counts_the_information_page() {
    let anonymous = fragment(DeviceClass::Mobile, None);
    assert_eq!(info_page(&anonymous), content(ViewVariant::AnonymousMobileFragment, Some(10), false));
    let user = fragment(DeviceClass::Mobile, Some(Identity::new(1, 10)));
    assert_eq!(info_page(&user), content(ViewVariant::AuthenticatedMobileFragment, Some(10), false));
}

#[test]
fn public_pages_count_nothing() {
    let ctx = fragment(DeviceClass::Desktop, None);
    let expected = content(ViewVariant::AnonymousDesktopFragment, None, false);
    assert_eq!(not_found(&ctx), expected);
    assert_eq!(history_page(&ctx), expected);
    assert_eq!(serve_list_page(&ctx), expected);
    assert_eq!(cookie_users_list_page(&ctx), expected);
}

#[test]
fn pages_for_superusers() {
    let admin = fragment(DeviceClass::Desktop, Some(Identity::new(1, 60)));
    let user = fragment(DeviceClass::Desktop, Some(Identity::new(2, 59)));
    let anonymous = fragment(DeviceClass::Desktop, None);
    let category = CategorySummary { id: 3, name: "n".to_string(), image: "i".to_string() };
    let granted = content(ViewVariant::AuthenticatedDesktopFragment, None, true);
    assert_eq!(create_category_page(&admin), granted);
    assert_eq!(edit_category_page(&admin, &category), granted);
    assert_eq!(create_item_page(&admin), granted);
    assert_eq!(feedback_list_page(&admin), granted);
    for ctx in [user, anonymous] {
        assert_eq!(create_category_page(&ctx), Err(PermissionDenied));
        assert_eq!(edit_category_page(&ctx, &category), Err(PermissionDenied));
        assert_eq!(create_item_page(&ctx), Err(PermissionDenied));
        assert_eq!(feedback_list_page(&ctx), Err(PermissionDenied));
    }
}

#[test]
fn feedback_list_has_no_shell() {
    assert_eq!(feedback_list_page(&full_load(None)), Err(PermissionDenied));
    assert_eq!(feedback_list_page(&full_load(Some(Identity::new(1, 10)))), Err(PermissionDenied));
    assert_eq!(
        feedback_list_page(&full_load(Some(Identity::new(1, 60)))),
        content(ViewVariant::AuthenticatedDesktopFragment, None, true)
    );
}

#[test]
fn pages_for_owners_and_superusers() {
    let owner = fragment(DeviceClass::Mobile, Some(Identity::new(8, 10)));
    let admin = fragment(DeviceClass::Mobile, Some(Identity::new(1, 60)));
    let stranger = fragment(DeviceClass::Mobile, Some(Identity::new(9, 10)));
    let anonymous = fragment(DeviceClass::Mobile, None);
    let file = FileSummary { id: 1, user_id: 8 };
    assert_eq!(edit_item_page(&owner, &item()), content(ViewVariant::AuthenticatedMobileFragment, None, false));
    assert_eq!(edit_item_page(&admin, &item()), content(ViewVariant::AuthenticatedMobileFragment, None, true));
    assert_eq!(edit_content_item_page(&owner, &item()), content(ViewVariant::AuthenticatedMobileFragment, None, false));
    assert_eq!(edit_file_page(&owner, &file), content(ViewVariant::AuthenticatedMobileFragment, None, false));
    assert_eq!(edit_file_page(&admin, &file), content(ViewVariant::AuthenticatedMobileFragment, None, true));
    for ctx in [stranger, anonymous] {
        assert_eq!(edit_item_page(&ctx, &item()), Err(PermissionDenied));
        assert_eq!(edit_content_item_page(&ctx, &item()), Err(PermissionDenied));
        assert_eq!(edit_file_page(&ctx, &file), Err(PermissionDenied));
    }
}

#[test]
fn loaded_parts_for_superusers() {
    assert_eq!(get_user_history_page(&Some(Identity::new(1, 60))), Ok(()));
    assert_eq!(get_user_history_page(&Some(Identity::new(1, 59))), Err(PermissionDenied));
    assert_eq!(get_user_history_page(&None), Err(PermissionDenied));
    assert!(get_tech_objects_page(&Some(Identity::new(1, 60))));
    assert!(!get_tech_objects_page(&Some(Identity::new(1, 10))));
    assert!(!get_tech_objects_page(&None));
}

#[test]
fn object_form_knows_the_business_kinds() {
    let admin = Some(Identity::new(1, 60));
    for types in [2i16, 3, 5] {
        assert_eq!(unical_object_form_page(&admin, types), Ok(true));
    }
    for types in [0i16, 1, 4, 6, -2, i16::MAX] {
        assert_eq!(unical_object_form_page(&admin, types), Ok(false));
    }
    assert_eq!(unical_object_form_page(&Some(Identity::new(1, 10)), 2), Err(PermissionDenied));
    assert_eq!(unical_object_form_page(&None, 2), Err(PermissionDenied));
}

#[test]
fn image_between_its_neighbours() {
    let images = vec![11, 12, 13, 14];
    assert_eq!(image_page(&images, 12), ImageNeighbours { prev: Some(11), next: Some(13) });
    assert_eq!(image_page(&images, 11), ImageNeighbours { prev: None, next: Some(12) });
    assert_eq!(image_page(&images, 14), ImageNeighbours { prev: Some(13), next: None });
}

#[test]
fn image_alone_or_unknown_has_no_neighbours() {
    assert_eq!(image_page(&vec![5], 5), ImageNeighbours { prev: None, next: None });
    assert_eq!(image_page(&vec![5, 6], 7), ImageNeighbours { prev: None, next: None });
    assert_eq!(image_page(&vec![], 7), ImageNeighbours { prev: None, next: None });
}

#[test]
fn image_listed_twice_is_taken_at_its_last_place() {
    let images = vec![1, 2, 3, 2, 4];
    assert_eq!(image_page(&images, 2), ImageNeighbours { prev: Some(3), next: Some(4) });
    assert_eq!(image_page(&vec![2, 2], 2), ImageNeighbours { prev: Some(2), next: None });
}

#[test]
fn blog_pages_follow_device_and_presence() {
    let user = Some(Identity::new(3, 10));
    assert_eq!(all_blogs_page(Some("Firefox"), &user), ViewVariant::AuthenticatedDesktopFragment);
    assert_eq!(all_blogs_page(Some("Firefox Mobile"), &user), ViewVariant::AuthenticatedMobileFragment);
    assert_eq!(all_blogs_page(Some("Firefox"), &None), ViewVariant::AnonymousDesktopFragment);
    assert_eq!(all_blogs_page(Some("Firefox Mobile"), &None), ViewVariant::AnonymousMobileFragment);
    assert_eq!(all_blogs_page(None, &None), ViewVariant::AnonymousDesktopFragment);
    assert_eq!(get_blog_page(Some("Firefox"), &user), ViewVariant::AuthenticatedDesktopFragment);
    assert_eq!(get_blog_page(Some("Firefox Mobile"), &user), ViewVariant::AuthenticatedMobileFragment);
    assert_eq!(get_blog_page(Some("Firefox"), &None), ViewVariant::AnonymousDesktopFragment);
    assert_eq!(get_blog_page(Some("Firefox Mobile"), &None), ViewVariant::AnonymousMobileFragment);
    assert_eq!(get_blog_page(None, &user), ViewVariant::AuthenticatedDesktopFragment);
}

#[test]
fn writing_to_the_blog() {
    let admin = Some(Identity::new(1, 60));
    let owner = Some(Identity::new(8, 10));
    let stranger = Some(Identity::new(9, 10));
    assert_eq!(create_blog(&admin), Ok(()));
    assert_eq!(create_blog(&owner), Err(PermissionDenied));
    assert_eq!(create_blog(&None), Err(PermissionDenied));
    assert_eq!(edit_blog(&owner, 8), Ok(()));
    assert_eq!(edit_blog(&admin, 8), Ok(()));
    assert_eq!(edit_blog(&stranger, 8), Err(PermissionDenied));
    assert_eq!(edit_blog(&None, 8), Err(PermissionDenied));
    assert_eq!(delete_blog(&owner, 8), Ok(()));
    assert_eq!(delete_blog(&admin, 8), Ok(()));
    assert_eq!(delete_blog(&stranger, 8), Err(PermissionDenied));
    assert_eq!(delete_blog(&None, 8), Err(PermissionDenied));
}
