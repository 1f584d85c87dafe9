use proc_qq::{FlashImage, FriendImage, GroupImage, ImageElement, Mismatch};

fn group(orig_url: Option<&str>) -> GroupImage {
    GroupImage {
        file_path: "0AFF10.jpg".to_string(),
        file_id: 11,
        size: 2048,
        width: 640,
        height: 480,
        md5: vec![0x0a, 0xff, 0x10],
        orig_url: orig_url.map(|u| u.to_string()),
        image_type: 1000,
        signature: vec![],
        server_ip: 1,
        server_port: 80,
    }
}

fn friend(orig_url: &str, download_path: &str) -> FriendImage {
    FriendImage {
        res_id: "/res".to_string(),
        file_path: "f.jpg".to_string(),
        md5: vec![0x0a, 0xff, 0x10],
        size: 2048,
        width: 640,
        height: 480,
        image_type: 1000,
        orig_url: orig_url.to_string(),
        download_path: download_path.to_string(),
    }
}

#[test]
fn group_url_from_digest() {
    assert_eq!(
        group(None).url(),
        "https://gchat.qpic.cn/gchatpic_new/0/0-0-0AFF10/0?term=2"
    );
}

#[test]
fn group_url_from_server_path() {
    assert_eq!(group(Some("/gchatpic_new/1/x")).url(), "https://gchat.qpic.cn/gchatpic_new/1/x");
}

#[test]
fn group_url_empty_digest() {
    let mut g = group(None);
    g.md5 = vec![];
    assert_eq!(g.url(), "https://gchat.qpic.cn/gchatpic_new/0/0-0-/0?term=2");
}

#[test]
fn friend_url_branches() {
    assert_eq!(friend("/orig", "/dl").url(), "https://c2cpicdw.qpic.cn/orig");
    assert_eq!(friend("", "/dl").url(), "https://c2cpicdw.qpic.cn/offpic_new/0//dl/0?term=3");
    assert_eq!(friend("", "").url(), "https://c2cpicdw.qpic.cn/offpic_new/0//res/0?term=3");
}

#[test]
fn metadata_same_for_every_shape() {
    let elements = vec![
        ImageElement::GroupImage(group(None)),
        ImageElement::FriendImage(friend("", "")),
        ImageElement::FlashImage(FlashImage::GroupImage(group(None))),
        ImageElement::FlashImage(FlashImage::FriendImage(friend("", ""))),
    ];
    for e in &elements {
        assert_eq!(e.width(), 640);
        assert_eq!(e.height(), 480);
        assert_eq!(e.size(), 2048);
        assert_eq!(e.md5(), vec![0x0a, 0xff, 0x10]);
    }
    assert_eq!(elements[0].url(), elements[2].url());
    assert_eq!(elements[1].url(), elements[3].url());
}

#[test]
fn predicates_by_shape() {
    let g = ImageElement::GroupImage(group(None));
    let f = ImageElement::FriendImage(friend("", ""));
    let fg = ImageElement::FlashImage(FlashImage::GroupImage(group(None)));
    let ff = ImageElement::FlashImage(FlashImage::FriendImage(friend("", "")));
    assert_eq!((g.is_flash(), g.is_group(), g.is_friend()), (false, true, false));
    assert_eq!((f.is_flash(), f.is_group(), f.is_friend()), (false, false, true));
    assert_eq!((fg.is_flash(), fg.is_group(), fg.is_friend()), (true, true, false));
    assert_eq!((ff.is_flash(), ff.is_group(), ff.is_friend()), (true, false, true));
}

#[test]
fn group_narrowing_on_friend_is_mismatch() {
    let f = ImageElement::FriendImage(friend("", ""));
    assert_eq!(f.case_group(), Err(Mismatch));
    assert_eq!(f.case_flash(), Err(Mismatch));
    assert_eq!(f.clone().into_group(), Err(Mismatch));
    assert_eq!(f.into_flash(), Err(Mismatch));
    let ff = ImageElement::FlashImage(FlashImage::FriendImage(friend("", "")));
    assert_eq!(ff.case_group(), Err(Mismatch));
    assert_eq!(ff.into_group(), Err(Mismatch));
}

#[test]
fn friend_narrowing_on_group_is_mismatch() {
    let g = ImageElement::GroupImage(group(None));
    assert_eq!(g.case_friend(), Err(Mismatch));
    assert_eq!(g.into_friend(), Err(Mismatch));
    let fg = ImageElement::FlashImage(FlashImage::GroupImage(group(None)));
    assert_eq!(fg.case_friend(), Err(Mismatch));
    assert_eq!(fg.into_friend(), Err(Mismatch));
}

#[test]
fn matching_narrowing_returns_source() {
    let g = ImageElement::GroupImage(group(Some("/p")));
    assert_eq!(g.case_group(), Ok(&group(Some("/p"))));
    assert_eq!(g.into_group(), Ok(group(Some("/p"))));
    let f = ImageElement::FriendImage(friend("/o", ""));
    assert_eq!(f.case_friend(), Ok(&friend("/o", "")));
    assert_eq!(f.into_friend(), Ok(friend("/o", "")));
    let fg = ImageElement::FlashImage(FlashImage::GroupImage(group(None)));
    assert_eq!(fg.case_group(), Ok(&group(None)));
    assert_eq!(fg.case_flash(), Ok(&FlashImage::GroupImage(group(None))));
    assert_eq!(fg.into_flash(), Ok(FlashImage::GroupImage(group(None))));
    let ff = ImageElement::FlashImage(FlashImage::FriendImage(friend("", "/d")));
    assert_eq!(ff.case_friend(), Ok(&friend("", "/d")));
    assert_eq!(ff.into_friend(), Ok(friend("", "/d")));
}
