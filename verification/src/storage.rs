//! Where the configuration file lives, and which copy of it counts.
//!
//! The caller reads the environment and touches the disk; the places and
//! the decisions between the primary file and its backup are worked out here.

use crate::text::chars_of;
use vstd::prelude::*;

verus! {

/// Why the configuration could not be stored or found.
#[derive(Copy, Clone, Debug, PartialEq, Eq, Structural)]
pub enum StorageError {
    /// The home directory is not known.
    HomeNotSet,
    /// Neither the primary file nor the backup could be written.
    BackupNotWritten,
}

/// One of the two copies of the configuration file.
#[derive(Copy, Clone, Debug, PartialEq, Eq, Structural)]
pub enum ConfigFile {
    Primary,
    Backup,
}

/// Where the configuration is loaded from.
#[derive(Copy, Clone, Debug, PartialEq, Eq, Structural)]
pub enum LoadSource {
    /// The primary file exists and is read.
    Primary,
    /// Only the backup exists; it is read and the primary restored from it.
    Backup,
    /// Neither exists; the defaults are used and written out.
    Defaults,
}

/// A path with one more component: the component is set behind the path,
/// with a separator between them unless the path is empty or ends in one.
pub open spec fn joined(base: Seq<char>, name: Seq<char>) -> Seq<char> {
    if base.len() == 0 || base.last() == '/' {
        base + name
    } else {
        base + "/"@ + name
    }
}

/// The directory of the configuration, from the configuration home if one
/// is set, else from the home directory.
pub open spec fn config_dir_text(xdg: Option<Seq<char>>, home: Option<Seq<char>>) -> Option<
    Seq<char>,
> {
    match xdg {
        Some(dir) => Some(joined(dir, "pttkey"@)),
        None => match home {
            Some(dir) => Some(joined(joined(dir, ".config"@), "pttkey"@)),
            None => None,
        },
    }
}

/// The text of an optional string slice.
pub open spec fn slice_text(text: Option<&str>) -> Option<Seq<char>> {
    match text {
        Some(t) => Some(t@),
        None => None,
    }
}

/// A path with one more component.
pub fn join_path(base: &str, name: &str) -> (path: String)
    ensures
        path@ == joined(base@, name@),
{
    let chars = chars_of(base);
    let mut path = base.to_owned();
    if chars.len() > 0 && chars[chars.len() - 1] != '/' {
        path.append("/");
    }
    path.append(name);
    path
}

/// The directory of the configuration: `pttkey` under the configuration
/// home if that is given, else under `.config` in the home directory.
pub fn config_dir(xdg: Option<&str>, home: Option<&str>) -> (dir: Result<String, StorageError>)
    ensures
        match config_dir_text(slice_text(xdg), slice_text(home)) {
            Some(text) => dir is Ok && dir->Ok_0@ == text,
            None => dir == Err::<String, StorageError>(StorageError::HomeNotSet),
        },
{
    if let Some(base) = xdg {
        return Ok(join_path(base, "pttkey"));
    }
    match home {
        Some(base) => {
            let dot_config = join_path(base, ".config");
            Ok(join_path(dot_config.as_str(), "pttkey"))
        },
        None => Err(StorageError::HomeNotSet),
    }
}

/// The primary configuration file: `config.toml` in the configuration directory.
pub fn config_path(xdg: Option<&str>, home: Option<&str>) -> (path: Result<String, StorageError>)
    ensures
        match config_dir_text(slice_text(xdg), slice_text(home)) {
            Some(dir) => path is Ok && path->Ok_0@ == joined(dir, "config.toml"@),
            None => path == Err::<String, StorageError>(StorageError::HomeNotSet),
        },
{
    match config_dir(xdg, home) {
        Ok(dir) => Ok(join_path(dir.as_str(), "config.toml")),
        Err(error) => Err(error),
    }
}

/// The backup of the configuration file: `.pttkey.toml` in the home directory.
pub fn backup_config_path(home: Option<&str>) -> (path: Result<String, StorageError>)
    ensures
        match home {
            Some(dir) => path is Ok && path->Ok_0@ == joined(dir@, ".pttkey.toml"@),
            None => path == Err::<String, StorageError>(StorageError::HomeNotSet),
        },
{
    match home {
        Some(dir) => Ok(join_path(dir, ".pttkey.toml")),
        None => Err(StorageError::HomeNotSet),
    }
}

/// Where the configuration is loaded from: the primary file if it exists,
/// else the backup if it exists, else the defaults.
pub fn load_persisted_config(primary_exists: bool, backup_exists: bool) -> (source: LoadSource)
    ensures
        source == if primary_exists {
            LoadSource::Primary
        } else if backup_exists {
            LoadSource::Backup
        } else {
            LoadSource::Defaults
        },
{
    if primary_exists {
        LoadSource::Primary
    } else if backup_exists {
        LoadSource::Backup
    } else {
        LoadSource::Defaults
    }
}

/// The file that holds the configuration after it was read from the
/// backup and the primary file restored from it: the primary if it could
/// be written, else the backup that was read. Restoring never fails.
pub fn restored_config_file(primary_written: bool) -> (used: ConfigFile)
    ensures
        used == if primary_written {
            ConfigFile::Primary
        } else {
            ConfigFile::Backup
        },
{
    if primary_written {
        ConfigFile::Primary
    } else {
        ConfigFile::Backup
    }
}

/// How writing the configuration ended, given whether each copy could be
/// written: the primary counts if it was written, else the backup; only
/// when neither was written has the write failed.
pub fn write_persisted_config(primary_written: bool, backup_written: bool) -> (used: Result<
    ConfigFile,
    StorageError,
>)
    ensures
        used == if primary_written {
            Ok::<ConfigFile, StorageError>(ConfigFile::Primary)
        } else if backup_written {
            Ok::<ConfigFile, StorageError>(ConfigFile::Backup)
        } else {
            Err::<ConfigFile, StorageError>(StorageError::BackupNotWritten)
        },
{
    if primary_written {
        Ok(ConfigFile::Primary)
    } else if backup_written {
        Ok(ConfigFile::Backup)
    } else {
        Err(StorageError::BackupNotWritten)
    }
}

} // verus!
