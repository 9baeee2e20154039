use vstd::prelude::*;
use vstd::string::StringExecFns;

use crate::error::WpError;
use crate::model::WpConfig;
use crate::text::{decimal, is_index_text, parse_index, digits_value, unsigned_body, render_decimal};

verus! {

/// The address of page `page` of a user's collection.
pub open spec fn page_url(username: Seq<char>, collection_id: Seq<char>, api_key: Seq<char>, page: nat) -> Seq<char> {
    "https://wallhaven.cc/api/v1/collections/"@ + username + "/"@ + collection_id + "/?apikey="@ + api_key
        + "&page="@ + decimal(page)
}

/// The configuration directory under a home directory.
pub open spec fn home_config(home: Option<Seq<char>>) -> Seq<char> {
    match home {
        Some(h) => h + "/.config"@,
        None => "/home/miek"@,
    }
}

/// The configuration directory: the one set for the user, else the one under
/// the home directory.
pub open spec fn config_folder(config_home: Option<Seq<char>>, home: Option<Seq<char>>) -> Seq<char> {
    match config_home {
        Some(c) => c,
        None => home_config(home),
    }
}

/// The view of an optional string.
pub open spec fn opt_view(s: Option<String>) -> Option<Seq<char>> {
    match s {
        Some(v) => Some(v@),
        None => None,
    }
}

impl WpConfig {
    /// The address of page `page` of the configured collection.
    pub fn get_at_page(&self, page: usize) -> (r: String)
        ensures
            r@ == page_url(self.username@, self.collection_id@, self.api_key@, page as nat),
    {
        let mut url = String::from_str("https://wallhaven.cc/api/v1/collections/");
        url.append(self.username.as_str());
        url.append("/");
        url.append(self.collection_id.as_str());
        url.append("/?apikey=");
        url.append(self.api_key.as_str());
        url.append("&page=");
        let num = render_decimal(page);
        url.append(num.as_str());
        url
    }

    /// The address of the page that is requested for the collection's
    /// figures.
    pub fn get_first(&self) -> (r: String)
        ensures
            r@ == page_url(self.username@, self.collection_id@, self.api_key@, 0),
    {
        self.get_at_page(0)
    }

    /// Where the picture is written: the configuration directory followed by
    /// the configured location, joined as they stand.
    pub fn wallpaper_path(&self, config_home: &str) -> (r: String)
        ensures
            r@ == config_home@ + self.file_location@,
    {
        let mut p = String::from_str(config_home);
        p.append(self.file_location.as_str());
        p
    }
}

/// The configuration directory under the home directory `home`, if one is
/// known.
pub fn get_home_folder(home: Option<String>) -> (r: String)
    ensures
        r@ == home_config(opt_view(home)),
{
    match home {
        Some(h) => h.concat("/.config"),
        None => String::from_str("/home/miek"),
    }
}

/// The configuration directory, from the directory set for the user and the
/// home directory, each if one is known.
pub fn get_config_folder(config_home: Option<String>, home: Option<String>) -> (r: String)
    ensures
        r@ == config_folder(opt_view(config_home), opt_view(home)),
{
    match config_home {
        Some(c) => c,
        None => get_home_folder(home),
    }
}

/// The configuration file in the configuration directory `folder`.
pub fn config_file_path(folder: &str) -> (r: String)
    ensures
        r@ == folder@ + "/wallhaven.json"@,
{
    let mut p = String::from_str(folder);
    p.append("/wallhaven.json");
    p
}

/// The arguments of the command that sets the picture at `path` as the
/// background.
pub fn bg_fill_args(path: &str) -> (r: Vec<String>)
    ensures
        r@.len() == 2,
        r@[0]@ == "--bg-fill"@,
        r@[1]@ == path@,
{
    let mut v: Vec<String> = Vec::new();
    v.push(String::from_str("--bg-fill"));
    v.push(String::from_str(path));
    v
}

/// The index that the program's arguments ask for: none when no argument
/// follows the program's name, so that one is drawn at random; else the
/// first argument read as an index.
///
/// Fails with `ArgumentParse` when that argument is not an index.
pub fn requested_index(args: &Vec<String>) -> (r: Result<Option<usize>, WpError>)
    ensures
        args@.len() <= 1 ==> r == Ok::<Option<usize>, WpError>(None),
        args@.len() > 1 && is_index_text(args@[1]@) ==> r == Ok::<Option<usize>, WpError>(
            Some(digits_value(unsigned_body(args@[1]@)) as usize),
        ),
        args@.len() > 1 && !is_index_text(args@[1]@) ==> r == Err::<Option<usize>, WpError>(
            WpError::ArgumentParse,
        ),
{
    if args.len() <= 1 {
        Ok(None)
    } else {
        match parse_index(args[1].as_str()) {
            Ok(i) => Ok(Some(i)),
            Err(e) => Err(e),
        }
    }
}

} // verus!
