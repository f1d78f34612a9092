//! Where the sign keeps its files, and which stored images are unused.
use vstd::prelude::*;
use vstd::string::{StrSliceExecFns, StringExecFns};
use crate::models::{ContentDetails, PlayListItem, Playlist};

verus! {

/// The system-wide storage directory.
pub const DEFAULT_DIR: &'static str = "/var/lib/led-matrix-controller";

/// The stored playlist.
pub const PLAYLIST_FILE: &'static str = "playlist.json";

/// The stored brightness.
pub const BRIGHTNESS_FILE: &'static str = "brightness.json";

/// The directory of uploaded images.
pub const IMAGES_DIR: &'static str = "images";

/// The path `name` inside directory `base`, as Unix paths join: an
/// absolute `name` replaces `base`; otherwise a `/` goes between them unless
/// `base` is empty or already ends in one.
pub open spec fn joined(base: Seq<char>, name: Seq<char>) -> Seq<char> {
    if name.len() > 0 && name[0] == '/' {
        name
    } else if base.len() == 0 || base.last() == '/' {
        base + name
    } else {
        base + seq!['/'] + name
    }
}

/// Relies on `std::path::Path::join` on Unix (`PathBuf::push`), read back
/// with `to_string_lossy`, which is exact for a path built from strings.
#[verifier::external_body]
fn path_join(base: &String, name: &str) -> (r: String)
    ensures
        r@ == joined(base@, name@),
{
    std::path::Path::new(base.as_str()).join(name).to_string_lossy().into_owned()
}

/// Relies on `std::path::Path::exists`: whether the file system shows
/// something at `path` now.
#[verifier::external_body]
fn path_exists(path: &String) -> (r: bool) {
    std::path::Path::new(path.as_str()).exists()
}

/// Lays out the files of the sign under one base directory.
pub struct StorageManager {
    base_dir: String,
}

impl StorageManager {
    pub closed spec fn base(&self) -> Seq<char> {
        self.base_dir@
    }

    /// Storage under `custom_dir`, or under the system-wide directory.
    pub fn new(custom_dir: Option<String>) -> (r: Self)
        ensures
            r.base() == (match custom_dir {
                Some(d) => d@,
                None => DEFAULT_DIR@,
            }),
    {
        let base_dir = match custom_dir {
            Some(dir) => dir,
            None => String::from_str(DEFAULT_DIR),
        };
        StorageManager { base_dir }
    }

    /// The path of file `filename` in storage.
    pub fn get_file_path(&self, filename: &str) -> (r: String)
        ensures
            r@ == joined(self.base(), filename@),
    {
        path_join(&self.base_dir, filename)
    }

    /// The directory of uploaded images.
    pub fn images_dir(&self) -> (r: String)
        ensures
            r@ == joined(self.base(), IMAGES_DIR@),
    {
        self.get_file_path(IMAGES_DIR)
    }

    /// The path of the image with id `image_id`: `<id>.png` in the images
    /// directory.
    pub fn image_file_path(&self, image_id: &str) -> (r: String)
        ensures
            r@ == joined(joined(self.base(), IMAGES_DIR@), image_id@ + ".png"@),
    {
        let dir = self.images_dir();
        let mut name = String::from_str(image_id);
        name.append(".png");
        path_join(&dir, name.as_str())
    }

    /// Whether file `filename` is in storage at the moment of asking.
    pub fn file_exists(&self, filename: &str) -> (r: bool) {
        let path = self.get_file_path(filename);
        path_exists(&path)
    }
}

/// The application's files: playlist, brightness and images.
pub struct AppStorage {
    storage_manager: StorageManager,
}

impl AppStorage {
    pub closed spec fn manager(&self) -> StorageManager {
        self.storage_manager
    }

    pub fn new(storage_manager: StorageManager) -> (r: Self)
        ensures
            r.manager() == storage_manager,
    {
        AppStorage { storage_manager }
    }

    /// The storage layout in use.
    pub fn storage_manager(&self) -> (r: &StorageManager)
        ensures
            *r == self.manager(),
    {
        &self.storage_manager
    }

    /// Where the image with id `image_id` is stored.
    pub fn image_path(&self, image_id: &str) -> (r: String)
        ensures
            r@ == joined(joined(self.manager().base(), IMAGES_DIR@), image_id@ + ".png"@),
    {
        self.storage_manager.image_file_path(image_id)
    }
}

/// Storage under `custom_dir`, or the system-wide directory.
pub fn create_storage(custom_dir: Option<String>) -> (r: AppStorage)
    ensures
        r.manager().base() == (match custom_dir {
            Some(d) => d@,
            None => DEFAULT_DIR@,
        }),
{
    AppStorage::new(StorageManager::new(custom_dir))
}

/// The image ids that the playlist refers to, in playlist order.
pub open spec fn image_ids(items: Seq<PlayListItem>) -> Seq<Seq<char>>
    decreases items.len(),
{
    if items.len() == 0 {
        seq![]
    } else {
        let rest = image_ids(items.drop_last());
        match items.last().content.data {
            ContentDetails::Image(c) => rest.push(c.image_id@),
            _ => rest,
        }
    }
}

/// The ids of the images that the playlist's items show.
pub fn referenced_image_ids(playlist: &Playlist) -> (r: Vec<String>)
    ensures
        r@.map_values(|s: String| s@) == image_ids(playlist.items@),
{
    let mut out: Vec<String> = Vec::new();
    let mut i: usize = 0;
    while i < playlist.items.len()
        invariant
            i <= playlist.items@.len(),
            out@.map_values(|s: String| s@) == image_ids(playlist.items@.subrange(0, i as int)),
        decreases playlist.items@.len() - i,
    {
        let ghost before = out@.map_values(|s: String| s@);
        assert(playlist.items@.subrange(0, i + 1).drop_last() =~= playlist.items@.subrange(
            0,
            i as int,
        ));
        match &playlist.items[i].content.data {
            ContentDetails::Image(c) => {
                out.push(c.image_id.clone());
                assert(out@.map_values(|s: String| s@) =~= before.push(c.image_id@));
            },
            _ => {},
        }
        i = i + 1;
    }
    assert(playlist.items@.subrange(0, playlist.items@.len() as int) =~= playlist.items@);
    out
}

/// `c` in lower case, for ASCII letters.
pub open spec fn ascii_lower(c: char) -> char {
    if 'A' <= c <= 'Z' {
        ((c as u32) + 32) as char
    } else {
        c
    }
}

/// Whether a file extension is `png` in any letter case.
pub open spec fn is_png(ext: Seq<char>) -> bool {
    ext.len() == 3 && ascii_lower(ext[0]) == 'p' && ascii_lower(ext[1]) == 'n' && ascii_lower(ext[2])
        == 'g'
}

fn lower_char(c: char) -> (r: char)
    ensures
        r == ascii_lower(c),
{
    if 'A' <= c && c <= 'Z' {
        ((c as u32) + 32) as u8 as char
    } else {
        c
    }
}

/// Whether a stored file with extension `extension` and name `stem` is an
/// image that no item refers to, and so may be removed.
pub fn is_unused_image(extension: &str, stem: &str, referenced: &Vec<String>) -> (r: bool)
    ensures
        r == (is_png(extension@) && !referenced@.map_values(|s: String| s@).contains(stem@)),
{
    let n = extension.unicode_len();
    if n != 3 {
        return false;
    }
    let png = lower_char(extension.get_char(0)) == 'p' && lower_char(extension.get_char(1)) == 'n'
        && lower_char(extension.get_char(2)) == 'g';
    if !png {
        return false;
    }
    let ghost ids = referenced@.map_values(|s: String| s@);
    let wanted = String::from_str(stem);
    let mut i: usize = 0;
    while i < referenced.len()
        invariant
            i <= referenced@.len(),
            ids == referenced@.map_values(|s: String| s@),
            wanted@ == stem@,
            forall|k: int| 0 <= k < i ==> ids[k] != stem@,
        decreases referenced@.len() - i,
    {
        if referenced[i] == wanted {
            assert(ids[i as int] == stem@);
            return false;
        }
        i = i + 1;
    }
    true
}

} // verus!
