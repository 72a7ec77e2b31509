//! Where the note's file lives.
//!
//! Paths are byte strings, as the operating system hands them out; nothing
//! here assumes that they are text.

use vstd::prelude::*;
use vstd::string::*;
use vstd::utf8::*;

verus! {

/// The byte that separates the components of a path.
pub const SEPARATOR: u8 = 0x2f;

/// Where the file lies below a base directory.
pub const CONFIG_SUFFIX: &'static str = ".gluey/config";

/// The bytes of [`CONFIG_SUFFIX`].
pub open spec fn suffix_bytes() -> Seq<u8> {
    CONFIG_SUFFIX.spec_bytes()
}

/// `base` followed by [`CONFIG_SUFFIX`], with a separator between the two
/// unless `base` is empty or already ends in one.
pub open spec fn under_base(base: Seq<u8>) -> Seq<u8> {
    if base.len() == 0 || base.last() == SEPARATOR {
        base + suffix_bytes()
    } else {
        base + seq![SEPARATOR] + suffix_bytes()
    }
}

/// The suffix, byte for byte.
pub proof fn lemma_suffix_bytes()
    ensures
        suffix_bytes() == seq![
            0x2eu8, 0x67, 0x6c, 0x75, 0x65, 0x79, 0x2f, 0x63, 0x6f, 0x6e, 0x66, 0x69, 0x67,
        ],
{
    reveal_strlit(".gluey/config");
    assert(CONFIG_SUFFIX@.len() == 13);
    assert(is_ascii_chars(CONFIG_SUFFIX@));
    is_ascii_chars_encode_utf8(CONFIG_SUFFIX@);
    assert(suffix_bytes() =~= seq![
        0x2eu8, 0x67, 0x6c, 0x75, 0x65, 0x79, 0x2f, 0x63, 0x6f, 0x6e, 0x66, 0x69, 0x67,
    ]);
}

/// The three environment variables that can name the file, each unset or
/// set to a value.
#[derive(Debug, Clone, PartialEq, Eq)]
pub struct ConfigEnv {
    /// `GLUEY_CONFIG`: the file itself, absolute or relative. Wins over the
    /// other two.
    pub gluey_config: Option<Vec<u8>>,
    /// `XDG_CONFIG_HOME`: a base directory. Wins over `home`.
    pub xdg_config_home: Option<Vec<u8>>,
    /// `HOME`: the base directory of last resort.
    pub home: Option<Vec<u8>>,
}

impl ConfigEnv {
    /// At least one of the three variables is set.
    pub open spec fn resolvable(self) -> bool {
        self.gluey_config is Some || self.xdg_config_home is Some || self.home is Some
    }

    /// Tells whether a location can be resolved at all.
    pub fn is_resolvable(&self) -> (r: bool)
        ensures
            r == self.resolvable(),
    {
        self.gluey_config.is_some() || self.xdg_config_home.is_some() || self.home.is_some()
    }

    /// The location that the variables name, where they name one.
    pub open spec fn location(self) -> Seq<u8> {
        if self.gluey_config is Some {
            self.gluey_config->0@
        } else if self.xdg_config_home is Some {
            under_base(self.xdg_config_home->0@)
        } else {
            under_base(self.home->0@)
        }
    }
}

/// The order of the variables: the explicit location wins over both base
/// directories, and the first base directory wins over the second. With
/// all three set the location is the explicit one; without it the file
/// lies below the first base directory; with that one unset too, below
/// the second.
pub proof fn lemma_variables_take_priority(
    explicit: Vec<u8>,
    first_base: Vec<u8>,
    second_base: Vec<u8>,
)
    ensures
        (ConfigEnv {
            gluey_config: Some(explicit),
            xdg_config_home: Some(first_base),
            home: Some(second_base),
        }).location() == explicit@,
        (ConfigEnv {
            gluey_config: None,
            xdg_config_home: Some(first_base),
            home: Some(second_base),
        }).location() == under_base(first_base@),
        (ConfigEnv {
            gluey_config: None,
            xdg_config_home: None,
            home: Some(second_base),
        }).location() == under_base(second_base@),
{
}

/// Below a base directory that is not empty and does not end in a
/// separator, the file lies at the base, one separator, and the suffix.
pub proof fn lemma_separator_is_inserted(base: Seq<u8>)
    requires
        base.len() > 0,
        base.last() != SEPARATOR,
    ensures
        under_base(base) == base + seq![SEPARATOR] + suffix_bytes(),
{
}

/// Appends [`CONFIG_SUFFIX`] to a base directory.
pub fn config_under(base: &Vec<u8>) -> (loc: Vec<u8>)
    ensures
        loc@ == under_base(base@),
{
    let mut loc = base.clone();
    let n = loc.len();
    if n > 0 && loc[n - 1] != SEPARATOR {
        loc.push(SEPARATOR);
    }
    loc.extend_from_slice(CONFIG_SUFFIX.as_bytes());
    loc
}

/// Resolves the location of the file: the explicit one if it is set, else
/// the file below the first base directory that is set. With none of the
/// three set there is no location, and the call is not allowed.
pub fn get_config_loc(env: &ConfigEnv) -> (loc: Vec<u8>)
    requires
        env.resolvable(),
    ensures
        loc@ == env.location(),
{
    match &env.gluey_config {
        Some(path) => path.clone(),
        None => match &env.xdg_config_home {
            Some(base) => config_under(base),
            None => match &env.home {
                Some(base) => config_under(base),
                None => Vec::new(),
            },
        },
    }
}

} // verus!
