//! Configuration of an engine before it is built: the credential, the model
//! and shared-library paths, and the feature toggles.
//!
//! `validate` performs every host-side check that must pass before the
//! foreign-function layer is allowed to touch the native library: the
//! credential must be non-empty and both files must exist.  The checks run
//! in that order, and the first failing one decides the error, so a
//! misconfigured builder never reaches a native call.

use vstd::prelude::*;

use crate::error::LeopardError;
use crate::error::LeopardErrorStatus;

verus! {

/// Initialization parameters for the engine, assembled by its setter
/// methods and consumed read-only when the engine is built.
pub struct LeopardBuilder {
    pub access_key: String,
    pub model_path: String,
    pub library_path: String,
    pub enable_automatic_punctuation: bool,
    pub enable_diarization: bool,
}

/// Everything `validate` promises of its result: the first failing check,
/// in the order credential, model path, library path, decides the error,
/// and only a builder that passes all three yields `Ok`.
pub open spec fn validate_result(
    b: LeopardBuilder,
    model_path_exists: bool,
    library_path_exists: bool,
    r: Result<(), LeopardError>,
) -> bool {
    &&& (r is Ok <==> b.access_key@.len() > 0 && model_path_exists && library_path_exists)
    &&& (b.access_key@.len() == 0 ==> (r matches Err(e) && e.status
        == LeopardErrorStatus::ArgumentError && e.message@ == "AccessKey is empty"@
        && e.message_stack@.len() == 0))
    &&& (b.access_key@.len() > 0 && !model_path_exists ==> (r matches Err(e) && e.status
        == LeopardErrorStatus::ArgumentError && e.message@ == "Couldn't find model file at "@
        + b.model_path@ && e.message_stack@.len() == 0))
    &&& (b.access_key@.len() > 0 && model_path_exists && !library_path_exists ==> (r matches Err(e)
        && e.status == LeopardErrorStatus::ArgumentError && e.message@
        == "Couldn't find Leopard's dynamic library at "@ + b.library_path@
        && e.message_stack@.len() == 0))
}

impl LeopardBuilder {
    /// A builder with no credential, no paths, and both feature toggles
    /// off.  Every field must be set before `validate` can succeed.
    pub fn new() -> (r: Self)
        ensures
            r.access_key@ == Seq::<char>::empty(),
            r.model_path@ == Seq::<char>::empty(),
            r.library_path@ == Seq::<char>::empty(),
            !r.enable_automatic_punctuation,
            !r.enable_diarization,
    {
        Self {
            access_key: String::new(),
            model_path: String::new(),
            library_path: String::new(),
            enable_automatic_punctuation: false,
            enable_diarization: false,
        }
    }

    /// Sets the credential that the native initializer will be given.
    pub fn access_key(self, access_key: &str) -> (r: Self)
        ensures
            r.access_key@ == access_key@,
            r.model_path == self.model_path,
            r.library_path == self.library_path,
            r.enable_automatic_punctuation == self.enable_automatic_punctuation,
            r.enable_diarization == self.enable_diarization,
    {
        Self { access_key: access_key.to_owned(), ..self }
    }

    /// Sets the path of the model parameter file.
    pub fn model_path(self, model_path: &str) -> (r: Self)
        ensures
            r.model_path@ == model_path@,
            r.access_key == self.access_key,
            r.library_path == self.library_path,
            r.enable_automatic_punctuation == self.enable_automatic_punctuation,
            r.enable_diarization == self.enable_diarization,
    {
        Self { model_path: model_path.to_owned(), ..self }
    }

    /// Sets the path of the engine's shared library.
    pub fn library_path(self, library_path: &str) -> (r: Self)
        ensures
            r.library_path@ == library_path@,
            r.access_key == self.access_key,
            r.model_path == self.model_path,
            r.enable_automatic_punctuation == self.enable_automatic_punctuation,
            r.enable_diarization == self.enable_diarization,
    {
        Self { library_path: library_path.to_owned(), ..self }
    }

    /// Turns automatic punctuation insertion on or off.
    pub fn enable_automatic_punctuation(self, enable_automatic_punctuation: bool) -> (r: Self)
        ensures
            r.enable_automatic_punctuation == enable_automatic_punctuation,
            r.access_key == self.access_key,
            r.model_path == self.model_path,
            r.library_path == self.library_path,
            r.enable_diarization == self.enable_diarization,
    {
        Self { enable_automatic_punctuation, ..self }
    }

    /// Turns speaker separation on or off.
    pub fn enable_diarization(self, enable_diarization: bool) -> (r: Self)
        ensures
            r.enable_diarization == enable_diarization,
            r.access_key == self.access_key,
            r.model_path == self.model_path,
            r.library_path == self.library_path,
            r.enable_automatic_punctuation == self.enable_automatic_punctuation,
    {
        Self { enable_diarization, ..self }
    }

    /// Checks everything that must hold before the shared library may be
    /// opened.  The caller reports in `model_path_exists` and
    /// `library_path_exists` whether the two configured files are present
    /// on disk; this function decides, in the fixed order credential, model
    /// path, library path, whether construction may go ahead and with which
    /// error it fails otherwise.
    pub fn validate(
        &self,
        model_path_exists: bool,
        library_path_exists: bool,
    ) -> (r: Result<(), LeopardError>)
        ensures
            validate_result(*self, model_path_exists, library_path_exists, r),
    {
        if self.access_key.as_str().unicode_len() == 0 {
            return Err(
                LeopardError::new(LeopardErrorStatus::ArgumentError, "AccessKey is empty"),
            );
        }
        if !model_path_exists {
            let mut message = String::from_str("Couldn't find model file at ");
            message.append(self.model_path.as_str());
            return Err(
                LeopardError::new_with_stack(
                    LeopardErrorStatus::ArgumentError,
                    message.as_str(),
                    Vec::new(),
                ),
            );
        }
        if !library_path_exists {
            let mut message = String::from_str("Couldn't find Leopard's dynamic library at ");
            message.append(self.library_path.as_str());
            return Err(
                LeopardError::new_with_stack(
                    LeopardErrorStatus::ArgumentError,
                    message.as_str(),
                    Vec::new(),
                ),
            );
        }
        Ok(())
    }
}

impl Default for LeopardBuilder {
    /// The same empty configuration as `new`.
    fn default() -> (r: Self)
        ensures
            r.access_key@ == Seq::<char>::empty(),
            r.model_path@ == Seq::<char>::empty(),
            r.library_path@ == Seq::<char>::empty(),
            !r.enable_automatic_punctuation,
            !r.enable_diarization,
    {
        Self::new()
    }
}

/// An engine built from an empty credential fails before anything native
/// happens: the failure is an `ArgumentError` naming the credential, and in
/// particular can never be a `LibraryLoadError`, because the shared library
/// is only opened once `validate` has returned `Ok`.
pub proof fn lemma_empty_credential_rejected(
    b: LeopardBuilder,
    model_path_exists: bool,
    library_path_exists: bool,
    r: Result<(), LeopardError>,
)
    requires
        validate_result(b, model_path_exists, library_path_exists, r),
        b.access_key@.len() == 0,
    ensures
        r matches Err(e) && e.status == LeopardErrorStatus::ArgumentError,
        r matches Err(e) && e.status != LeopardErrorStatus::LibraryLoadError,
{
}

} // verus!
