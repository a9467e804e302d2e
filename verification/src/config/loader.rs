//! Loading and saving the configuration through a
//! [`FileSystemInterface`].

use crate::config::decode::loaded_from;
use crate::config::encode::{cannot_render, renders_to, writable};
use crate::config::types::{default_config, Config, ConfigView};
use crate::error::{ErrorKind, MonitorError};
use crate::system::traits::{change_time_of, presence_of, FileSystemInterface};
use vstd::prelude::*;

verus! {

/// Calls `std::path::Path::parent` on the path that `path` spells: the
/// directory that holds the file, or `None` where the path ends in a root
/// or is empty. How a path is taken apart depends on the platform, so
/// nothing is claimed of the result.
#[verifier::external_body]
fn parent_dir(path: &str) -> (parent: Option<String>) {
    match std::path::Path::new(path).parent() {
        Some(parent) => Some(parent.to_string_lossy().into_owned()),
        None => None,
    }
}

/// Whether a file last changed at `current_ms` has changed since
/// `last_modified_ms`.
pub open spec fn is_newer(current_ms: u64, last_modified_ms: u64) -> bool {
    current_ms > last_modified_ms
}

/// What a loader asks its file system to do.
pub enum FileRequest {
    /// To read the file at `path`.
    Read { path: Seq<char> },
    /// To put `content` into the file at `path`.
    Write { path: Seq<char>, content: Seq<char> },
    /// To create the directory `path`.
    CreateDir { path: Seq<char> },
}

/// Whether `requests` is what saving `config` at `path` asks of a file
/// system: first for a directory, where the path has one to create; then
/// for the file at `path` to hold a text that reads back as what is
/// written of `config`, unless the directory could not be created or the
/// configuration cannot be written. Where nothing is asked, the
/// configuration cannot be written.
pub open spec fn is_saving(
    path: Seq<char>,
    config: ConfigView,
    requests: Seq<FileRequest>,
) -> bool {
    &&& requests.len() <= 2
    &&& forall|k: int|
        0 <= k < requests.len() ==> match #[trigger] requests[k] {
            FileRequest::CreateDir { .. } => k == 0,
            FileRequest::Write { path: to, content } => k == requests.len() - 1 && to == path
                && writable(config) && renders_to(config, content),
            FileRequest::Read { .. } => false,
        }
    &&& requests.len() == 0 ==> !writable(config) || cannot_render(config)
}

/// What a load comes to, given what the file system answered when it was
/// asked to read the file. A text that holds a configuration gives that
/// configuration as it is loaded; a text that holds none gives a
/// configuration error; an error of the file system comes back as an
/// error of its kind.
pub open spec fn is_read(
    answer: Result<String, MonitorError>,
    config: Result<Config, MonitorError>,
) -> bool {
    match answer {
        Ok(content) => match config {
            Ok(config) => loaded_from(content@) == Some(config@) && config.valid(),
            Err(error) => loaded_from(content@) is None && error.kind == ErrorKind::Config,
        },
        Err(cause) => config matches Err(error) && error.kind == cause.kind,
    }
}

/// What a load of the file at `path` in `file_system` comes to, where
/// the file system has answered `there` to the question whether the file
/// is there. A file that is there is read, and what the file system
/// answers decides. Where there is none, the default configuration is
/// saved, if possible, and comes back.
pub open spec fn is_loading<F: FileSystemInterface>(
    file_system: F,
    path: Seq<char>,
    there: bool,
    requests: Seq<FileRequest>,
    config: Result<Config, MonitorError>,
) -> bool {
    if there {
        &&& requests == seq![FileRequest::Read { path }]
        &&& exists|system: &mut F, asked: &str, answer: Result<String, MonitorError>|
            mut_ref_current(system) == file_system && asked@ == path && #[trigger] call_ensures(
                F::read_config_file,
                (system, asked),
                answer,
            ) && is_read(answer, config)
    } else {
        &&& is_saving(path, default_config(), requests)
        &&& config matches Ok(config) && config@ == default_config() && config.valid()
    }
}

/// Whether a file has changed since `last_modified_ms`, given what the
/// file system answers when it is asked whether the file is there and
/// when it was last changed. A file that is not there has not changed.
pub open spec fn change_since(
    there: bool,
    changed: Result<u64, MonitorError>,
    last_modified_ms: u64,
) -> Result<bool, MonitorError> {
    if !there {
        Ok(false)
    } else {
        match changed {
            Ok(current_ms) => Ok(is_newer(current_ms, last_modified_ms)),
            Err(error) => Err(error),
        }
    }
}

/// Loads and saves the configuration file at one path.
pub struct ConfigLoader<F: FileSystemInterface> {
    file_system: F,
    config_path: String,
    /// What the loader has asked its file system to do.
    asked: Ghost<Seq<FileRequest>>,
}

impl<F: FileSystemInterface> ConfigLoader<F> {
    /// The path of the configuration file.
    pub closed spec fn path(&self) -> Seq<char> {
        self.config_path@
    }

    /// The file system of the loader.
    pub closed spec fn file_system_spec(&self) -> F {
        self.file_system
    }

    /// What the loader has asked its file system to do so far, in the
    /// order of the requests.
    pub closed spec fn requests(&self) -> Seq<FileRequest> {
        self.asked@
    }

    /// A loader for the file at `config_path` in `file_system`.
    pub fn new(file_system: F, config_path: String) -> (loader: Self)
        ensures
            loader.path() == config_path@,
            loader.file_system_spec() == file_system,
            loader.requests() == Seq::<FileRequest>::empty(),
    {
        Self { file_system, config_path, asked: Ghost(Seq::empty()) }
    }

    /// Loads the configuration. Where there is no file, the default
    /// configuration is created and, if possible, saved. Where the file
    /// cannot be read or does not hold a configuration, the error comes
    /// back with the path of the file before its words.
    pub fn load_config(&mut self) -> (config: Result<Config, MonitorError>)
        ensures
            exists|there: bool, added: Seq<FileRequest>| #[trigger]
                is_loading(old(self).file_system_spec(), old(self).path(), there, added, config)
                    && presence_of(old(self).file_system_spec(), old(self).path(), there)
                    && final(self).requests() == old(self).requests() + added,
            final(self).path() == old(self).path(),
            config matches Ok(config) ==> config.valid(),
            (exists|added: Seq<FileRequest>| #[trigger]
                is_saving(old(self).path(), default_config(), added) && presence_of(
                    old(self).file_system_spec(),
                    old(self).path(),
                    false,
                )
                    && is_loading(old(self).file_system_spec(), old(self).path(), false, added, config)
                    && final(self).requests() == old(self).requests() + added
                        && (added.len() == 0 ==> final(self).file_system_spec() == old(self).file_system_spec())
                        && (added.len() == 1 && added[0] is CreateDir
                        ==> exists|dir: &mut F, asked: &str, created: Result<(), MonitorError>| #[trigger]
                        call_ensures(F::create_config_dir, (dir, asked), created)
                            && mut_ref_current(dir)
                            == old(self).file_system_spec()
                                && mut_ref_future(dir) == final(self).file_system_spec()
                                && added[0] == (FileRequest::CreateDir {
                            path: asked@,
                        }) && (created is Ok ==> !writable(default_config())
                            || cannot_render(default_config()))) && (added.len() == 1
                        && added[0] is Write ==> exists|
                        file: &mut F,
                        to: &str,
                        text: &str,
                        written: Result<(), MonitorError>,
                    | #[trigger]
                        call_ensures(F::write_config_file, (file, to, text), written)
                            && mut_ref_current(file)
                            == old(self).file_system_spec()
                                && mut_ref_future(file) == final(self).file_system_spec()
                                && added[0] == (FileRequest::Write {
                            path: to@,
                            content: text@,
                        })) && (added.len() == 2 ==> exists|
                        dir: &mut F,
                        asked: &str,
                        file: &mut F,
                        to: &str,
                        text: &str,
                        written: Result<(), MonitorError>,
                    |
                        #![trigger
                            call_ensures(F::create_config_dir, (dir, asked), Ok::<(), MonitorError>(())),
                            call_ensures(F::write_config_file, (file, to, text), written),
                        ]
                        mut_ref_current(dir) == old(self).file_system_spec()
                            && mut_ref_current(file) == mut_ref_future(dir)
                            && mut_ref_future(file) == final(self).file_system_spec()
                                && added[0] == (FileRequest::CreateDir {
                            path: asked@,
                        }) && added[1] == (FileRequest::Write { path: to@, content: text@ })
                            && call_ensures(
                            F::create_config_dir,
                            (dir, asked),
                            Ok::<(), MonitorError>(()),
                        ) && call_ensures(F::write_config_file, (file, to, text), written))) || (
            presence_of(old(self).file_system_spec(), old(self).path(), true) && is_loading(
                old(self).file_system_spec(),
                old(self).path(),
                true,
                seq![FileRequest::Read { path: old(self).path() }],
                config,
            ) && final(self).requests() == old(self).requests().push(
                FileRequest::Read { path: old(self).path() },
            ) && exists|system: &mut F, asked: &str, answer: Result<String, MonitorError>|
                mut_ref_current(system) == old(self).file_system_spec()
                    && mut_ref_future(system) == final(self).file_system_spec()
                    && asked@ == old(self).path() && #[trigger] call_ensures(
                    F::read_config_file,
                    (system, asked),
                    answer,
                ) && is_read(answer, config)),
    {
        let there = self.file_system.config_file_exists(self.config_path.as_str());
        proof {
            assert(presence_of(self.file_system_spec(), self.path(), there));
        }
        if !there {
            let created = self.create_default_config();
            proof {
                let added = choose|added: Seq<FileRequest>| #[trigger]
                    is_saving(self.path(), default_config(), added)
                        && self.requests() == old(self).requests() + added;
                assert(is_loading(
                    old(self).file_system_spec(),
                    old(self).path(),
                    false,
                    added,
                    created,
                ));
            }
            return created;
        }
        proof {
            self.asked@ = self.asked@.push(FileRequest::Read { path: self.config_path@ });
            assert(self.requests() =~= old(self).requests() + seq![
                FileRequest::Read { path: self.config_path@ },
            ]);
        }
        let answer = self.file_system.read_config_file(self.config_path.as_str());
        let config = match &answer {
            Ok(content) => self.parse_config(content.as_str()),
            Err(error) => Err(
                Self::located(
                    error.clone(),
                    "Failed to read configuration file: ",
                    self.config_path.as_str(),
                ),
            ),
        };
        proof {
            assert(is_read(answer, config));
            assert(self.requests() =~= old(self).requests().push(
                FileRequest::Read { path: old(self).path() },
            ));
            assert(self.requests() =~= old(self).requests() + seq![
                FileRequest::Read { path: old(self).path() },
            ]);
            assert(is_loading(
                old(self).file_system_spec(),
                old(self).path(),
                true,
                seq![FileRequest::Read { path: old(self).path() }],
                config,
            ));
        }
        config
    }

    /// The configuration that the text `content` of the file holds. An
    /// error comes back with the path of the file before its words.
    pub fn parse_config(&self, content: &str) -> (config: Result<Config, MonitorError>)
        ensures
            match config {
                Ok(config) => loaded_from(content@) == Some(config@) && config.valid(),
                Err(error) => loaded_from(content@) is None && error.kind == ErrorKind::Config,
            },
    {
        match Config::from_toml_str(content) {
            Ok(config) => Ok(config),
            Err(error) => Err(
                Self::located(
                    error,
                    "Failed to parse configuration file: ",
                    self.config_path.as_str(),
                ),
            ),
        }
    }

    /// The error `error` with `what` and `path` before its words.
    fn located(error: MonitorError, what: &str, path: &str) -> (located: MonitorError)
        ensures
            located.kind == error.kind,
            located.message@ == what@ + path@ + ": "@ + error.message@,
    {
        let mut context = what.to_owned();
        vstd::string::StringExecFns::append(&mut context, path);
        error.context(context.as_str())
    }

    /// Saves `config`: asks the file system for the directory of the
    /// file, renders the configuration and asks the file system to write
    /// the file. A configuration that cannot be written is refused; else
    /// the file system's answers decide.
    pub fn save_config(&mut self, config: &Config) -> (saved: Result<(), MonitorError>)
        ensures
            final(self).path() == old(self).path(),
            !writable(config@) ==> saved is Err,
            exists|added: Seq<FileRequest>| #[trigger]
                is_saving(old(self).path(), config@, added)
                    && final(self).requests() == old(self).requests() + added
                    && (saved is Ok ==> added.len() > 0 && added.last() is Write)
                        && (added.len() == 0 ==> final(self).file_system_spec() == old(self).file_system_spec())
                        && (added.len() == 1 && added[0] is CreateDir
                        ==> exists|dir: &mut F, asked: &str, created: Result<(), MonitorError>| #[trigger]
                        call_ensures(F::create_config_dir, (dir, asked), created)
                            && mut_ref_current(dir)
                            == old(self).file_system_spec()
                                && mut_ref_future(dir) == final(self).file_system_spec()
                                && added[0] == (FileRequest::CreateDir {
                            path: asked@,
                        }) && (created is Ok ==> !writable(config@) || cannot_render(config@))
                            && saved is Err && (created matches Err(cause) ==> saved matches Err(
                            error,
                        ) && error.kind == cause.kind)) && (added.len() == 1
                        && added[0] is Write ==> exists|
                        file: &mut F,
                        to: &str,
                        text: &str,
                        written: Result<(), MonitorError>,
                    | #[trigger]
                        call_ensures(F::write_config_file, (file, to, text), written)
                            && mut_ref_current(file)
                            == old(self).file_system_spec()
                                && mut_ref_future(file) == final(self).file_system_spec()
                                && added[0] == (FileRequest::Write {
                            path: to@,
                            content: text@,
                        }) && (written is Ok <==> saved is Ok) && (written matches Err(cause)
                            ==> saved matches Err(
                            error,
                        ) && error.kind == cause.kind)) && (added.len() == 2 ==> exists|
                        dir: &mut F,
                        asked: &str,
                        file: &mut F,
                        to: &str,
                        text: &str,
                        written: Result<(), MonitorError>,
                    |
                        #![trigger
                            call_ensures(F::create_config_dir, (dir, asked), Ok::<(), MonitorError>(())),
                            call_ensures(F::write_config_file, (file, to, text), written),
                        ]
                        mut_ref_current(dir) == old(self).file_system_spec()
                            && mut_ref_current(file) == mut_ref_future(dir)
                            && mut_ref_future(file) == final(self).file_system_spec()
                                && added[0] == (FileRequest::CreateDir {
                            path: asked@,
                        }) && added[1] == (FileRequest::Write { path: to@, content: text@ })
                            && call_ensures(
                            F::create_config_dir,
                            (dir, asked),
                            Ok::<(), MonitorError>(()),
                        ) && call_ensures(F::write_config_file, (file, to, text), written)
                            && (written is Ok <==> saved is Ok)
                            && (written matches Err(cause) ==> saved matches Err(
                            error,
                        ) && error.kind == cause.kind)),
    {
        let ghost before = self.asked@;
        let ghost mut added: Seq<FileRequest> = Seq::empty();
        if let Some(parent) = parent_dir(self.config_path.as_str()) {
            proof {
                added = added.push(FileRequest::CreateDir { path: parent@ });
                self.asked@ = self.asked@.push(FileRequest::CreateDir { path: parent@ });
            }
            let created = self.file_system.create_config_dir(parent.as_str());
            match created {
                Ok(()) => {
                    assert(created is Ok && created->Ok_0 == ());
                },
                Err(error) => {
                    proof {
                        assert(self.requests() =~= before + added);
                        assert(is_saving(self.path(), config@, added));
                    }
                    return Err(
                        Self::located(
                            error,
                            "Failed to create config directory: ",
                            parent.as_str(),
                        ),
                    );
                },
            }
        }
        let content = match config.to_toml_string() {
            Ok(content) => content,
            Err(error) => {
                proof {
                    assert(self.requests() =~= before + added);
                    assert(is_saving(self.path(), config@, added));
                }
                return Err(error);
            },
        };
        proof {
            let write = FileRequest::Write { path: self.config_path@, content: content@ };
            added = added.push(write);
            self.asked@ = self.asked@.push(write);
            assert(self.requests() =~= before + added);
            assert(is_saving(self.path(), config@, added));
        }
        let written = self.file_system.write_config_file(
            self.config_path.as_str(),
            content.as_str(),
        );
        match written {
            Ok(()) => Ok(()),
            Err(error) => Err(
                Self::located(
                    error,
                    "Failed to write configuration file: ",
                    self.config_path.as_str(),
                ),
            ),
        }
    }

    /// Loads the configuration anew.
    pub fn reload_config(&mut self) -> (config: Result<Config, MonitorError>)
        ensures
            exists|there: bool, added: Seq<FileRequest>| #[trigger]
                is_loading(old(self).file_system_spec(), old(self).path(), there, added, config)
                    && presence_of(old(self).file_system_spec(), old(self).path(), there)
                    && final(self).requests() == old(self).requests() + added,
            final(self).path() == old(self).path(),
            config matches Ok(config) ==> config.valid(),
            (exists|added: Seq<FileRequest>| #[trigger]
                is_saving(old(self).path(), default_config(), added) && presence_of(
                    old(self).file_system_spec(),
                    old(self).path(),
                    false,
                )
                    && is_loading(old(self).file_system_spec(), old(self).path(), false, added, config)
                    && final(self).requests() == old(self).requests() + added
                        && (added.len() == 0 ==> final(self).file_system_spec() == old(self).file_system_spec())
                        && (added.len() == 1 && added[0] is CreateDir
                        ==> exists|dir: &mut F, asked: &str, created: Result<(), MonitorError>| #[trigger]
                        call_ensures(F::create_config_dir, (dir, asked), created)
                            && mut_ref_current(dir)
                            == old(self).file_system_spec()
                                && mut_ref_future(dir) == final(self).file_system_spec()
                                && added[0] == (FileRequest::CreateDir {
                            path: asked@,
                        }) && (created is Ok ==> !writable(default_config())
                            || cannot_render(default_config()))) && (added.len() == 1
                        && added[0] is Write ==> exists|
                        file: &mut F,
                        to: &str,
                        text: &str,
                        written: Result<(), MonitorError>,
                    | #[trigger]
                        call_ensures(F::write_config_file, (file, to, text), written)
                            && mut_ref_current(file)
                            == old(self).file_system_spec()
                                && mut_ref_future(file) == final(self).file_system_spec()
                                && added[0] == (FileRequest::Write {
                            path: to@,
                            content: text@,
                        })) && (added.len() == 2 ==> exists|
                        dir: &mut F,
                        asked: &str,
                        file: &mut F,
                        to: &str,
                        text: &str,
                        written: Result<(), MonitorError>,
                    |
                        #![trigger
                            call_ensures(F::create_config_dir, (dir, asked), Ok::<(), MonitorError>(())),
                            call_ensures(F::write_config_file, (file, to, text), written),
                        ]
                        mut_ref_current(dir) == old(self).file_system_spec()
                            && mut_ref_current(file) == mut_ref_future(dir)
                            && mut_ref_future(file) == final(self).file_system_spec()
                                && added[0] == (FileRequest::CreateDir {
                            path: asked@,
                        }) && added[1] == (FileRequest::Write { path: to@, content: text@ })
                            && call_ensures(
                            F::create_config_dir,
                            (dir, asked),
                            Ok::<(), MonitorError>(()),
                        ) && call_ensures(F::write_config_file, (file, to, text), written))) || (
            presence_of(old(self).file_system_spec(), old(self).path(), true) && is_loading(
                old(self).file_system_spec(),
                old(self).path(),
                true,
                seq![FileRequest::Read { path: old(self).path() }],
                config,
            ) && final(self).requests() == old(self).requests().push(
                FileRequest::Read { path: old(self).path() },
            ) && exists|system: &mut F, asked: &str, answer: Result<String, MonitorError>|
                mut_ref_current(system) == old(self).file_system_spec()
                    && mut_ref_future(system) == final(self).file_system_spec()
                    && asked@ == old(self).path() && #[trigger] call_ensures(
                    F::read_config_file,
                    (system, asked),
                    answer,
                ) && is_read(answer, config)),
    {
        self.load_config()
    }

    /// Whether the file has changed since `last_modified`, a time in
    /// milliseconds as the file system reports it. A file that is not
    /// there has not changed.
    pub fn is_config_modified(&self, last_modified: u64) -> (modified: Result<bool, MonitorError>)
        ensures
            exists|there: bool, changed: Result<u64, MonitorError>| #[trigger]
                change_since(there, changed, last_modified) == modified && presence_of(
                    self.file_system_spec(),
                    self.path(),
                    there,
                ) && (there ==> change_time_of(self.file_system_spec(), self.path(), changed)),
    {
        let there = self.file_system.config_file_exists(self.config_path.as_str());
        proof {
            assert(presence_of(self.file_system_spec(), self.path(), there));
        }
        if !there {
            proof {
                let changed = Ok::<u64, MonitorError>(0);
                assert(change_since(there, changed, last_modified) == Ok::<bool, MonitorError>(
                    false,
                ));
            }
            return Ok(false);
        }
        let changed = self.file_system.get_config_modified_time(self.config_path.as_str());
        proof {
            assert(change_time_of(self.file_system_spec(), self.path(), changed));
        }
        match changed {
            Ok(current_modified) => {
                let modified = Ok(modified_since(current_modified, last_modified));
                assert(change_since(there, changed, last_modified) == modified);
                modified
            },
            Err(error) => {
                let modified = Err(error);
                assert(change_since(there, changed, last_modified) == modified);
                modified
            },
        }
    }

    /// When the file was last changed, if the file system can tell.
    pub fn modified_time(&self) -> (modified: Option<u64>)
        ensures
            exists|changed: Result<u64, MonitorError>| #[trigger]
                change_time_of(self.file_system_spec(), self.path(), changed) && modified
                    == known_time(changed),
    {
        let changed = self.file_system.get_config_modified_time(self.config_path.as_str());
        proof {
            assert(change_time_of(self.file_system_spec(), self.path(), changed));
        }
        match changed {
            Ok(modified) => Some(modified),
            Err(_) => None,
        }
    }

    /// The path of the configuration file.
    pub fn get_config_path(&self) -> (path: &str)
        ensures
            path@ == self.path(),
    {
        self.config_path.as_str()
    }

    /// Whether the configuration file is there.
    pub fn config_exists(&self) -> (there: bool)
        ensures
            presence_of(self.file_system_spec(), self.path(), there),
    {
        self.file_system.config_file_exists(self.config_path.as_str())
    }

    /// Makes the default configuration and tries to save it. That the
    /// directory cannot be created or the file cannot be written is no
    /// error: the default configuration is used all the same.
    pub fn create_default_config(&mut self) -> (config: Result<Config, MonitorError>)
        ensures
            final(self).path() == old(self).path(),
            config matches Ok(config) && config@ == default_config() && config.valid(),
            exists|added: Seq<FileRequest>| #[trigger]
                is_saving(old(self).path(), default_config(), added) && final(self).requests()
                    == old(self).requests() + added
                        && (added.len() == 0 ==> final(self).file_system_spec() == old(self).file_system_spec())
                        && (added.len() == 1 && added[0] is CreateDir
                        ==> exists|dir: &mut F, asked: &str, created: Result<(), MonitorError>| #[trigger]
                        call_ensures(F::create_config_dir, (dir, asked), created)
                            && mut_ref_current(dir)
                            == old(self).file_system_spec()
                                && mut_ref_future(dir) == final(self).file_system_spec()
                                && added[0] == (FileRequest::CreateDir {
                            path: asked@,
                        }) && (created is Ok ==> !writable(default_config())
                            || cannot_render(default_config()))) && (added.len() == 1
                        && added[0] is Write ==> exists|
                        file: &mut F,
                        to: &str,
                        text: &str,
                        written: Result<(), MonitorError>,
                    | #[trigger]
                        call_ensures(F::write_config_file, (file, to, text), written)
                            && mut_ref_current(file)
                            == old(self).file_system_spec()
                                && mut_ref_future(file) == final(self).file_system_spec()
                                && added[0] == (FileRequest::Write {
                            path: to@,
                            content: text@,
                        })) && (added.len() == 2 ==> exists|
                        dir: &mut F,
                        asked: &str,
                        file: &mut F,
                        to: &str,
                        text: &str,
                        written: Result<(), MonitorError>,
                    |
                        #![trigger
                            call_ensures(F::create_config_dir, (dir, asked), Ok::<(), MonitorError>(())),
                            call_ensures(F::write_config_file, (file, to, text), written),
                        ]
                        mut_ref_current(dir) == old(self).file_system_spec()
                            && mut_ref_current(file) == mut_ref_future(dir)
                            && mut_ref_future(file) == final(self).file_system_spec()
                                && added[0] == (FileRequest::CreateDir {
                            path: asked@,
                        }) && added[1] == (FileRequest::Write { path: to@, content: text@ })
                            && call_ensures(
                            F::create_config_dir,
                            (dir, asked),
                            Ok::<(), MonitorError>(()),
                        ) && call_ensures(F::write_config_file, (file, to, text), written)),
    {
        let config = Config::default();
        let _ = self.save_config(&config);
        Ok(config)
    }

    /// The file system, to look at what it has been asked.
    pub fn get_file_system(&self) -> (file_system: &F)
        ensures
            *file_system == self.file_system_spec(),
    {
        &self.file_system
    }

    /// The file system, to change what it holds.
    pub fn file_system_mut(&mut self) -> (file_system: &mut F)
        ensures
            *file_system == old(self).file_system_spec(),
            final(self).file_system_spec() == *final(file_system),
            final(self).path() == old(self).path(),
            final(self).requests() == old(self).requests(),
    {
        &mut self.file_system
    }
}

/// The time that an answer of the file system gives, if it gives one.
pub open spec fn known_time(changed: Result<u64, MonitorError>) -> Option<u64> {
    match changed {
        Ok(modified) => Some(modified),
        Err(_) => None,
    }
}

/// Whether a file last changed at `current_ms` has changed since
/// `last_modified_ms`.
pub fn modified_since(current_ms: u64, last_modified_ms: u64) -> (modified: bool)
    ensures
        modified == is_newer(current_ms, last_modified_ms),
{
    current_ms > last_modified_ms
}

} // verus!
