//! One queryable shape over the image-like message attachments.

use vstd::prelude::*;
use vstd::string::StringExecFns;

verus! {

/// An image sent in a group chat.
#[derive(Debug, Clone, PartialEq, Eq)]
pub struct GroupImage {
    pub file_path: String,
    pub file_id: i64,
    pub size: u32,
    pub width: u32,
    pub height: u32,
    pub md5: Vec<u8>,
    pub orig_url: Option<String>,
    pub image_type: i32,
    pub signature: Vec<u8>,
    pub server_ip: u32,
    pub server_port: u32,
}

/// An image sent in a private chat.
#[derive(Debug, Clone, PartialEq, Eq)]
pub struct FriendImage {
    pub res_id: String,
    pub file_path: String,
    pub md5: Vec<u8>,
    pub size: u32,
    pub width: u32,
    pub height: u32,
    pub image_type: i32,
    pub orig_url: String,
    pub download_path: String,
}

/// A view-limited image, wrapping a private-chat or a group image.
#[derive(Debug, Clone, PartialEq, Eq)]
pub enum FlashImage {
    FriendImage(FriendImage),
    GroupImage(GroupImage),
}

/// Any of the three image attachment shapes.
#[derive(Debug, Clone, PartialEq, Eq)]
pub enum ImageElement {
    GroupImage(GroupImage),
    FriendImage(FriendImage),
    FlashImage(FlashImage),
}

/// The requested narrowing does not match the element's actual shape.
#[derive(Debug, Clone, Copy, PartialEq, Eq)]
pub struct Mismatch;

/// Upper-case hexadecimal digit of a value below sixteen.
pub open spec fn hex_digit_upper(n: int) -> char {
    seq!['0', '1', '2', '3', '4', '5', '6', '7', '8', '9', 'A', 'B', 'C', 'D', 'E', 'F'][n]
}

/// Upper-case hexadecimal text of a byte string, two digits per byte.
pub open spec fn hex_upper(b: Seq<u8>) -> Seq<char>
    decreases b.len(),
{
    if b.len() == 0 {
        Seq::empty()
    } else {
        hex_upper(b.drop_last()) + seq![
            hex_digit_upper(b.last() as int / 16),
            hex_digit_upper(b.last() as int % 16),
        ]
    }
}

/// Download address of a group image: the server-given path if any, else one built from
/// the digest.
pub open spec fn group_url(orig_url: Option<Seq<char>>, md5: Seq<u8>) -> Seq<char> {
    match orig_url {
        Some(path) => "https://gchat.qpic.cn"@ + path,
        None => "https://gchat.qpic.cn/gchatpic_new/0/0-0-"@ + hex_upper(md5) + "/0?term=2"@,
    }
}

/// Download address of a private-chat image: the server-given path if non-empty, else one
/// built from the download path, or from the resource id when that is empty too.
pub open spec fn friend_url(orig_url: Seq<char>, download_path: Seq<char>, res_id: Seq<char>) -> Seq<char> {
    if orig_url.len() > 0 {
        "https://c2cpicdw.qpic.cn"@ + orig_url
    } else {
        "https://c2cpicdw.qpic.cn/offpic_new/0/"@ + (if download_path.len() > 0 {
            download_path
        } else {
            res_id
        }) + "/0?term=3"@
    }
}

impl GroupImage {
    pub open spec fn url_spec(&self) -> Seq<char> {
        group_url(
            match self.orig_url {
                Some(u) => Some(u@),
                None => None,
            },
            self.md5@,
        )
    }

    /// Download address of the image.
    pub fn url(&self) -> (r: String)
        ensures
            r@ == self.url_spec(),
    {
        group_image_url(&self.orig_url, &self.md5)
    }
}

impl FriendImage {
    pub open spec fn url_spec(&self) -> Seq<char> {
        friend_url(self.orig_url@, self.download_path@, self.res_id@)
    }

    /// Download address of the image.
    pub fn url(&self) -> (r: String)
        ensures
            r@ == self.url_spec(),
    {
        friend_image_url(&self.orig_url, &self.download_path, &self.res_id)
    }
}

impl FlashImage {
    /// The group image inside, if this wraps one.
    pub open spec fn inner_group(&self) -> Option<GroupImage> {
        match self {
            FlashImage::GroupImage(g) => Some(*g),
            FlashImage::FriendImage(_) => None,
        }
    }

    /// The private-chat image inside, if this wraps one.
    pub open spec fn inner_friend(&self) -> Option<FriendImage> {
        match self {
            FlashImage::FriendImage(f) => Some(*f),
            FlashImage::GroupImage(_) => None,
        }
    }
}

impl ImageElement {
    /// The group image this element carries, flash or not.
    pub open spec fn group(&self) -> Option<GroupImage> {
        match self {
            ImageElement::GroupImage(g) => Some(*g),
            ImageElement::FriendImage(_) => None,
            ImageElement::FlashImage(f) => f.inner_group(),
        }
    }

    /// The private-chat image this element carries, flash or not.
    pub open spec fn friend(&self) -> Option<FriendImage> {
        match self {
            ImageElement::GroupImage(_) => None,
            ImageElement::FriendImage(f) => Some(*f),
            ImageElement::FlashImage(f) => f.inner_friend(),
        }
    }

    pub open spec fn spec_width(&self) -> u32 {
        match self.group() {
            Some(g) => g.width,
            None => self.friend().unwrap().width,
        }
    }

    pub open spec fn spec_height(&self) -> u32 {
        match self.group() {
            Some(g) => g.height,
            None => self.friend().unwrap().height,
        }
    }

    pub open spec fn spec_size(&self) -> u32 {
        match self.group() {
            Some(g) => g.size,
            None => self.friend().unwrap().size,
        }
    }

    pub open spec fn spec_md5(&self) -> Seq<u8> {
        match self.group() {
            Some(g) => g.md5@,
            None => self.friend().unwrap().md5@,
        }
    }

    pub open spec fn spec_url(&self) -> Seq<char> {
        match self.group() {
            Some(g) => g.url_spec(),
            None => self.friend().unwrap().url_spec(),
        }
    }

    /// Width in pixels.
    pub fn width(&self) -> (r: u32)
        ensures
            r == self.spec_width(),
    {
        match self {
            ImageElement::GroupImage(image) => image.width,
            ImageElement::FriendImage(image) => image.width,
            ImageElement::FlashImage(image) => match image {
                FlashImage::FriendImage(image) => image.width,
                FlashImage::GroupImage(image) => image.width,
            },
        }
    }

    /// Height in pixels.
    pub fn height(&self) -> (r: u32)
        ensures
            r == self.spec_height(),
    {
        match self {
            ImageElement::GroupImage(image) => image.height,
            ImageElement::FriendImage(image) => image.height,
            ImageElement::FlashImage(image) => match image {
                FlashImage::FriendImage(image) => image.height,
                FlashImage::GroupImage(image) => image.height,
            },
        }
    }

    /// Size in bytes.
    pub fn size(&self) -> (r: u32)
        ensures
            r == self.spec_size(),
    {
        match self {
            ImageElement::GroupImage(image) => image.size,
            ImageElement::FriendImage(image) => image.size,
            ImageElement::FlashImage(image) => match image {
                FlashImage::FriendImage(image) => image.size,
                FlashImage::GroupImage(image) => image.size,
            },
        }
    }

    /// Download address.
    pub fn url(&self) -> (r: String)
        ensures
            r@ == self.spec_url(),
    {
        match self {
            ImageElement::GroupImage(image) => image.url(),
            ImageElement::FriendImage(image) => image.url(),
            ImageElement::FlashImage(image) => match image {
                FlashImage::FriendImage(image) => image.url(),
                FlashImage::GroupImage(image) => image.url(),
            },
        }
    }

    /// MD5 digest of the image content.
    pub fn md5(&self) -> (r: Vec<u8>)
        ensures
            r@ == self.spec_md5(),
    {
        match self {
            ImageElement::GroupImage(image) => image.md5.clone(),
            ImageElement::FriendImage(image) => image.md5.clone(),
            ImageElement::FlashImage(image) => match image {
                FlashImage::FriendImage(image) => image.md5.clone(),
                FlashImage::GroupImage(image) => image.md5.clone(),
            },
        }
    }

    /// Whether the element is a flash image.
    pub fn is_flash(&self) -> (r: bool)
        ensures
            r == self is FlashImage,
    {
        match self {
            ImageElement::FlashImage(_) => true,
            _ => false,
        }
    }

    /// The flash image, or `Mismatch` when the element is not one.
    pub fn case_flash(&self) -> (r: Result<&FlashImage, Mismatch>)
        ensures
            r is Ok <==> self is FlashImage,
            r is Ok ==> *r->Ok_0 == self->FlashImage_0,
    {
        match self {
            ImageElement::FlashImage(image) => Ok(image),
            _ => Err(Mismatch),
        }
    }

    /// Consumes the element into its flash image, or `Mismatch` when it is not one.
    pub fn into_flash(self) -> (r: Result<FlashImage, Mismatch>)
        ensures
            r is Ok <==> self is FlashImage,
            r is Ok ==> r->Ok_0 == self->FlashImage_0,
    {
        match self {
            ImageElement::FlashImage(image) => Ok(image),
            _ => Err(Mismatch),
        }
    }

    /// Whether the element carries a group image, flash or not.
    pub fn is_group(&self) -> (r: bool)
        ensures
            r == self.group() is Some,
    {
        match self {
            ImageElement::GroupImage(_) => true,
            ImageElement::FriendImage(_) => false,
            ImageElement::FlashImage(image) => match image {
                FlashImage::FriendImage(_) => false,
                FlashImage::GroupImage(_) => true,
            },
        }
    }

    /// The group image carried, flash or not; `Mismatch` for a private-chat image.
    pub fn case_group(&self) -> (r: Result<&GroupImage, Mismatch>)
        ensures
            r is Ok <==> self.group() is Some,
            r is Ok ==> self.group() == Some(*r->Ok_0),
    {
        match self {
            ImageElement::GroupImage(image) => Ok(image),
            ImageElement::FriendImage(_) => Err(Mismatch),
            ImageElement::FlashImage(image) => match image {
                FlashImage::FriendImage(_) => Err(Mismatch),
                FlashImage::GroupImage(image) => Ok(image),
            },
        }
    }

    /// Consumes the element into the group image it carries; `Mismatch` for a
    /// private-chat image.
    pub fn into_group(self) -> (r: Result<GroupImage, Mismatch>)
        ensures
            r is Ok <==> self.group() is Some,
            r is Ok ==> self.group() == Some(r->Ok_0),
    {
        match self {
            ImageElement::GroupImage(image) => Ok(image),
            ImageElement::FriendImage(_) => Err(Mismatch),
            ImageElement::FlashImage(image) => match image {
                FlashImage::FriendImage(_) => Err(Mismatch),
                FlashImage::GroupImage(image) => Ok(image),
            },
        }
    }

    /// Whether the element carries a private-chat image, flash or not.
    pub fn is_friend(&self) -> (r: bool)
        ensures
            r == self.friend() is Some,
    {
        match self {
            ImageElement::GroupImage(_) => false,
            ImageElement::FriendImage(_) => true,
            ImageElement::FlashImage(image) => match image {
                FlashImage::FriendImage(_) => true,
                FlashImage::GroupImage(_) => false,
            },
        }
    }

    /// The private-chat image carried, flash or not; `Mismatch` for a group image.
    pub fn case_friend(&self) -> (r: Result<&FriendImage, Mismatch>)
        ensures
            r is Ok <==> self.friend() is Some,
            r is Ok ==> self.friend() == Some(*r->Ok_0),
    {
        match self {
            ImageElement::GroupImage(_) => Err(Mismatch),
            ImageElement::FriendImage(image) => Ok(image),
            ImageElement::FlashImage(image) => match image {
                FlashImage::FriendImage(image) => Ok(image),
                FlashImage::GroupImage(_) => Err(Mismatch),
            },
        }
    }

    /// Consumes the element into the private-chat image it carries; `Mismatch` for a
    /// group image.
    pub fn into_friend(self) -> (r: Result<FriendImage, Mismatch>)
        ensures
            r is Ok <==> self.friend() is Some,
            r is Ok ==> self.friend() == Some(r->Ok_0),
    {
        match self {
            ImageElement::GroupImage(_) => Err(Mismatch),
            ImageElement::FriendImage(image) => Ok(image),
            ImageElement::FlashImage(image) => match image {
                FlashImage::FriendImage(image) => Ok(image),
                FlashImage::GroupImage(_) => Err(Mismatch),
            },
        }
    }
}

/// Wrapping an image as a flash image changes none of its metadata: width, height,
/// size, address and digest read the same through either element.
pub proof fn lemma_flash_keeps_metadata(g: GroupImage, f: FriendImage)
    ensures
        ({
            let plain = ImageElement::GroupImage(g);
            let flash = ImageElement::FlashImage(FlashImage::GroupImage(g));
            &&& plain.spec_width() == flash.spec_width()
            &&& plain.spec_height() == flash.spec_height()
            &&& plain.spec_size() == flash.spec_size()
            &&& plain.spec_url() == flash.spec_url()
            &&& plain.spec_md5() == flash.spec_md5()
        }),
        ({
            let plain = ImageElement::FriendImage(f);
            let flash = ImageElement::FlashImage(FlashImage::FriendImage(f));
            &&& plain.spec_width() == flash.spec_width()
            &&& plain.spec_height() == flash.spec_height()
            &&& plain.spec_size() == flash.spec_size()
            &&& plain.spec_url() == flash.spec_url()
            &&& plain.spec_md5() == flash.spec_md5()
        }),
{
}

/// Images of either scope with the same width, height, size and digest report the same
/// values for those attributes, whichever of the three shapes carries them.
pub proof fn lemma_shape_independent_metadata(a: ImageElement, b: ImageElement)
    requires
        ({
            let (w, h, s, m) = match a.group() {
                Some(g) => (g.width, g.height, g.size, g.md5@),
                None => {
                    let f = a.friend().unwrap();
                    (f.width, f.height, f.size, f.md5@)
                },
            };
            let (w2, h2, s2, m2) = match b.group() {
                Some(g) => (g.width, g.height, g.size, g.md5@),
                None => {
                    let f = b.friend().unwrap();
                    (f.width, f.height, f.size, f.md5@)
                },
            };
            w == w2 && h == h2 && s == s2 && m == m2
        }),
    ensures
        a.spec_width() == b.spec_width(),
        a.spec_height() == b.spec_height(),
        a.spec_size() == b.spec_size(),
        a.spec_md5() == b.spec_md5(),
{
}

/// Narrowing to the shape an element does not carry fails, and narrowing to the one it
/// carries gives back exactly the image it was built from.
pub proof fn lemma_narrowing(g: GroupImage, f: FriendImage)
    ensures
        ImageElement::FriendImage(f).group() is None,
        ImageElement::FlashImage(FlashImage::FriendImage(f)).group() is None,
        ImageElement::GroupImage(g).friend() is None,
        ImageElement::FlashImage(FlashImage::GroupImage(g)).friend() is None,
        ImageElement::GroupImage(g).group() == Some(g),
        ImageElement::FlashImage(FlashImage::GroupImage(g)).group() == Some(g),
        ImageElement::FriendImage(f).friend() == Some(f),
        ImageElement::FlashImage(FlashImage::FriendImage(f)).friend() == Some(f),
{
}

fn hex_digit_str(n: u8) -> (r: &'static str)
    requires
        n < 16,
    ensures
        r@ == seq![hex_digit_upper(n as int)],
{
    proof {
        reveal_strlit("0");
        reveal_strlit("1");
        reveal_strlit("2");
        reveal_strlit("3");
        reveal_strlit("4");
        reveal_strlit("5");
        reveal_strlit("6");
        reveal_strlit("7");
        reveal_strlit("8");
        reveal_strlit("9");
        reveal_strlit("A");
        reveal_strlit("B");
        reveal_strlit("C");
        reveal_strlit("D");
        reveal_strlit("E");
        reveal_strlit("F");
    }
    match n {
        0 => "0",
        1 => "1",
        2 => "2",
        3 => "3",
        4 => "4",
        5 => "5",
        6 => "6",
        7 => "7",
        8 => "8",
        9 => "9",
        10 => "A",
        11 => "B",
        12 => "C",
        13 => "D",
        14 => "E",
        _ => "F",
    }
}

/// Appends the upper-case hex text of `bytes` to `out`.
fn append_hex_upper(out: &mut String, bytes: &Vec<u8>)
    ensures
        final(out)@ == old(out)@ + hex_upper(bytes@),
{
    let mut i: usize = 0;
    while i < bytes.len()
        invariant
            i <= bytes@.len(),
            out@ == old(out)@ + hex_upper(bytes@.subrange(0, i as int)),
        decreases bytes@.len() - i,
    {
        let b: u8 = bytes[i];
        out.append(hex_digit_str(b / 16));
        out.append(hex_digit_str(b % 16));
        proof {
            let next = bytes@.subrange(0, i + 1);
            assert(next.drop_last() =~= bytes@.subrange(0, i as int));
            assert(next.last() == b);
        }
        i = i + 1;
    }
    assert(bytes@.subrange(0, i as int) =~= bytes@);
}

fn group_image_url(orig_url: &Option<String>, md5: &Vec<u8>) -> (r: String)
    ensures
        r@ == group_url(
            match orig_url {
                Some(u) => Some(u@),
                None => None,
            },
            md5@,
        ),
{
    match orig_url {
        Some(path) => {
            let mut out = String::from_str("https://gchat.qpic.cn");
            out.append(path.as_str());
            out
        },
        None => {
            let mut out = String::from_str("https://gchat.qpic.cn/gchatpic_new/0/0-0-");
            append_hex_upper(&mut out, md5);
            out.append("/0?term=2");
            out
        },
    }
}

fn friend_image_url(orig_url: &String, download_path: &String, res_id: &String) -> (r: String)
    ensures
        r@ == friend_url(orig_url@, download_path@, res_id@),
{
    if !orig_url.as_str().is_empty() {
        let mut out = String::from_str("https://c2cpicdw.qpic.cn");
        out.append(orig_url.as_str());
        out
    } else {
        let mut out = String::from_str("https://c2cpicdw.qpic.cn/offpic_new/0/");
        if !download_path.as_str().is_empty() {
            out.append(download_path.as_str());
        } else {
            out.append(res_id.as_str());
        }
        out.append("/0?term=3");
        out
    }
}

} // verus!
