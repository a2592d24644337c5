use vstd::prelude::*;

verus! {

/// std's kind of an I/O error, carried through as it is.
#[verifier::external_type_specification]
#[verifier::external_body]
pub struct ExErrorKind(std::io::ErrorKind);

/// Why an open or a save did not complete.
#[derive(Clone, Copy, Debug, PartialEq, Eq)]
pub enum Error {
    /// The user closed the file dialog without choosing a file.
    DialogClosed,
    /// Reading or writing the file failed.
    IOFailed(std::io::ErrorKind),
}

/// The colour scheme of the editor.
#[derive(Clone, Copy, Debug, PartialEq, Eq, Structural)]
pub enum Theme {
    SolarizedDark,
    Base16Mocha,
    Base16Ocean,
    Base16Eighties,
    InspiredGitHub,
}

impl Theme {
    /// Whether the scheme has a dark background.
    pub open spec fn is_dark_spec(&self) -> bool {
        !(self is InspiredGitHub)
    }

    #[verifier::when_used_as_spec(is_dark_spec)]
    pub fn is_dark(&self) -> (r: bool)
        ensures
            r == self.is_dark_spec(),
    {
        match self {
            Theme::InspiredGitHub => false,
            _ => true,
        }
    }

    /// Every colour scheme, in the order a picker lists them.
    pub fn all() -> (r: Vec<Theme>)
        ensures
            r@ == seq![
                Theme::SolarizedDark,
                Theme::Base16Mocha,
                Theme::Base16Ocean,
                Theme::Base16Eighties,
                Theme::InspiredGitHub,
            ],
    {
        let r = vec![
            Theme::SolarizedDark,
            Theme::Base16Mocha,
            Theme::Base16Ocean,
            Theme::Base16Eighties,
            Theme::InspiredGitHub,
        ];
        assert(r@ =~= seq![
            Theme::SolarizedDark,
            Theme::Base16Mocha,
            Theme::Base16Ocean,
            Theme::Base16Eighties,
            Theme::InspiredGitHub,
        ]);
        r
    }
}

} // verus!
