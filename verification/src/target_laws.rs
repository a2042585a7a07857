//! What holds of the Target tab as a whole.
use crate::event::KeyCode;
use crate::file_picker::{ActivationModel, FilePickerModel};
use crate::host_picker::{HostPickerModel, PickerStep};
use crate::servers::ServerModel;
use crate::target::{TargetActionModel, TargetField, TargetModel, TargetTabModel};
use crate::text;
use crate::widgets::InputModel;
use vstd::prelude::*;

verus! {

/// The target is this machine, or the host of the form. Each part of a remote
/// target is what was typed into its field, without white space round it; a
/// password is taken as it was typed.
pub proof fn the_target_is_what_the_form_says(t: TargetTabModel)
    ensures
        t.target() is Local <==> !t.is_remote,
        t.target() matches TargetModel::Remote { host, port, user, key_path, password } ==> {
            &&& host == text::trimmed(t.ssh_host.text)
            &&& port == text::trimmed(t.ssh_port.text)
            &&& user == text::trimmed(t.ssh_user.text)
            &&& key_path == text::trimmed(t.ssh_key_path.text)
            &&& password == t.ssh_password.text
        },
{
}

/// A host is missing exactly where a remote target would have none.
pub proof fn a_host_is_missing_where_the_target_has_none(t: TargetTabModel)
    ensures
        t.needs_host() <==> (t.target() matches TargetModel::Remote { host, port, user, key_path, password }
            && host.len() == 0),
{
}

/// The input of a field.
pub open spec fn input_of(t: TargetTabModel, f: TargetField) -> Option<InputModel> {
    match f {
        TargetField::SshHost => Some(t.ssh_host),
        TargetField::SshPort => Some(t.ssh_port),
        TargetField::SshUser => Some(t.ssh_user),
        TargetField::SshKeyPath => Some(t.ssh_key_path),
        TargetField::SshPassword => Some(t.ssh_password),
        TargetField::Mode | TargetField::BtnConnect => None,
    }
}

/// What is typed goes into the field with the focus, and into no other.
pub proof fn typing_goes_to_the_field_with_the_focus(t: TargetTabModel, c: char, f: TargetField)
    requires
        !t.picking(),
    ensures
        ({
            let (after, action) = t.on_key(KeyCode::Char(c));
            &&& action == TargetActionModel::Nothing
            &&& input_of(after, f) == if f == t.field && input_of(t, f) is Some {
                Some(
                    InputModel {
                        text: input_of(t, f)->0.text.insert(input_of(t, f)->0.cursor, c),
                        cursor: input_of(t, f)->0.cursor + 1,
                    },
                )
            } else {
                input_of(t, f)
            }
            &&& after.is_remote == t.is_remote
            &&& after.field == t.field
        }),
{
}

/// Turning the mode turns nothing else, and turning it twice changes nothing.
pub proof fn the_mode_turns_alone(t: TargetTabModel, key: KeyCode)
    requires
        !t.picking(),
        t.field == TargetField::Mode,
        key == KeyCode::Left || key == KeyCode::Right || key == KeyCode::Enter,
    ensures
        t.on_key(key).0 == (TargetTabModel { is_remote: !t.is_remote, ..t }),
        t.on_key(key).0.on_key(key).0 == t,
{
}

/// Enter does what its field is for: it lists the known hosts, browses for a
/// key from the path typed so far, or connects.
pub proof fn enter_does_what_the_field_is_for(t: TargetTabModel)
    requires
        !t.picking(),
    ensures
        t.on_key(KeyCode::Enter).1 == TargetActionModel::ListHosts <==> t.field == TargetField::SshHost,
        t.on_key(KeyCode::Enter).1 == TargetActionModel::BrowseKey(t.ssh_key_path.text) <==> t.field
            == TargetField::SshKeyPath,
        t.on_key(KeyCode::Enter).1 == TargetActionModel::Connect <==> t.field == TargetField::BtnConnect,
        t.field == TargetField::SshHost || t.field == TargetField::SshKeyPath || t.field == TargetField::BtnConnect
            ==> t.on_key(KeyCode::Enter).0 == t,
{
}

/// A known host fills in all that it knows, each into its own field.
pub proof fn a_host_fills_in_what_it_knows(t: TargetTabModel, s: ServerModel)
    ensures
        ({
            let f = t.filled_from(s);
            &&& f.ssh_host.text == if s.host.len() > 0 {
                s.host
            } else {
                s.alias
            }
            &&& s.port != 0 ==> f.ssh_port.text == text::decimal(s.port as nat)
            &&& s.user.len() > 0 ==> f.ssh_user.text == s.user
            &&& s.identity_files.len() > 0 ==> f.ssh_key_path.text == s.identity_files[0]
            &&& s.ssh_password.len() > 0 ==> f.ssh_password.text == s.ssh_password
            &&& f.field == t.field
            &&& f.connecting == t.connecting
        }),
{
}

/// Picking a host closes the list and fills in that host; closing the list
/// keeps the form.
pub proof fn picking_a_host_fills_the_form(t: TargetTabModel, p: HostPickerModel)
    ensures
        p.picked() matches Some(s) ==> t.host_step(p, PickerStep::Pick) == (TargetTabModel {
            host_picker: None,
            ..t.filled_from(s)
        }),
        t.host_step(p, PickerStep::Close) == (TargetTabModel { host_picker: None, ..t }),
{
}

/// Picking a file puts its path into the form and closes the list; a
/// directory is read and the list stays.
pub proof fn picking_a_key_puts_in_its_path(t: TargetTabModel, p: FilePickerModel)
    ensures
        p.activated() matches ActivationModel::Picked(path) ==> t.key_step(p, PickerStep::Pick) == (
            TargetTabModel {
                key_picker: None,
                ssh_key_path: InputModel { text: path, cursor: path.len() as int },
                ..t
            },
            TargetActionModel::Nothing,
        ),
        p.activated() matches ActivationModel::Open(path) ==> t.key_step(p, PickerStep::Pick) == (
            TargetTabModel { key_picker: Some(p), ..t },
            TargetActionModel::ReadDir(path),
        ),
        t.key_step(p, PickerStep::Close).0 == (TargetTabModel { key_picker: None, ..t }),
{
}

} // verus!
