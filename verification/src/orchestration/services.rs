//! Runtime side of the virtual-service RPC: what the vault answers to a
//! remote administration request, and how a service reply is recognised
//! and read. Plain orchestration, with no platform in it.
use vstd::prelude::*;
use vstd::string::StringExecFns;
use crate::protocol::framing::{Frame, MsgType};
use crate::protocol::services::{AdminAction, AdminRequestPayload, AdminResponsePayload, ServiceId, ServiceResult};

verus! {

/// The system log lines returned by `GetLogs`.
pub open spec fn admin_logs() -> Seq<Seq<char>> {
    seq![
        "[17:01:02] [vault-core] Inicializando orquestador virtual..."@,
        "[17:01:05] [vault-crypto] Llave de sesión Noise_XX cargada correctamente."@,
        "[17:01:06] [vault-linux] Volumen cifrado montado correctamente en /dev/mapper/vault."@,
        "[17:01:10] [vault-stream] Pipeline de codificación H.265 iniciado a 20 FPS."@,
        "[17:01:15] [vault-core] Enlace seguro activo con cliente Android."@,
    ]
}

/// The network a `ChangeNetwork` request switches to.
pub open spec fn requested_network(req: AdminRequestPayload) -> Seq<char> {
    match req.target_network {
        Some(n) => n@,
        None => "DHCP (Autodetect)"@,
    }
}

/// The runtime version an `UpdateRuntime` request installs.
pub open spec fn requested_version(req: AdminRequestPayload) -> Seq<char> {
    match req.update_version {
        Some(v) => v@,
        None => "v1.1.0-stable"@,
    }
}

/// The message answering each administration request.
pub open spec fn admin_message(req: AdminRequestPayload) -> Seq<char> {
    match req.action {
        AdminAction::GetLogs => "Logs del sistema obtenidos correctamente"@,
        AdminAction::RebootVault => "Reinicio ordenado de la bóveda iniciado remotamente"@,
        AdminAction::ChangeNetwork => "Configuración de red cambiada exitosamente a: "@ + requested_network(req),
        AdminAction::FactoryReset => "Reestablecimiento de fábrica completado (llaves revocadas)"@,
        AdminAction::UpdateRuntime => "Actualización de runtime a la versión "@ + requested_version(req)
            + " completada con éxito"@,
    }
}

/// The text of each string of a list.
pub open spec fn texts(v: Seq<String>) -> Seq<Seq<char>> {
    v.map_values(|s: String| s@)
}

fn or_default(value: &Option<String>, default: &str) -> (r: String)
    ensures
        r@ == match value {
            Some(v) => v@,
            None => default@,
        },
{
    match value {
        Some(v) => v.clone(),
        None => String::from_str(default),
    }
}

/// Answers a remote administration request. Every action succeeds; only
/// `GetLogs` returns log lines.
pub fn respond_to_admin_request(request: &AdminRequestPayload) -> (r: AdminResponsePayload)
    ensures
        r.success,
        r.message@ == admin_message(*request),
        texts(r.logs@) == if request.action == AdminAction::GetLogs {
            admin_logs()
        } else {
            Seq::<Seq<char>>::empty()
        },
{
    match request.action {
        AdminAction::GetLogs => {
            let mut logs: Vec<String> = Vec::new();
            logs.push(String::from_str("[17:01:02] [vault-core] Inicializando orquestador virtual..."));
            logs.push(String::from_str("[17:01:05] [vault-crypto] Llave de sesión Noise_XX cargada correctamente."));
            logs.push(String::from_str("[17:01:06] [vault-linux] Volumen cifrado montado correctamente en /dev/mapper/vault."));
            logs.push(String::from_str("[17:01:10] [vault-stream] Pipeline de codificación H.265 iniciado a 20 FPS."));
            logs.push(String::from_str("[17:01:15] [vault-core] Enlace seguro activo con cliente Android."));
            assert(texts(logs@) =~= admin_logs());
            AdminResponsePayload {
                success: true,
                message: String::from_str("Logs del sistema obtenidos correctamente"),
                logs,
            }
        },
        AdminAction::RebootVault => {
            let logs: Vec<String> = Vec::new();
            assert(texts(logs@) =~= Seq::<Seq<char>>::empty());
            AdminResponsePayload {
                success: true,
                message: String::from_str("Reinicio ordenado de la bóveda iniciado remotamente"),
                logs,
            }
        },
        AdminAction::ChangeNetwork => {
            let network = or_default(&request.target_network, "DHCP (Autodetect)");
            let mut message = String::from_str("Configuración de red cambiada exitosamente a: ");
            message.append(network.as_str());
            let logs: Vec<String> = Vec::new();
            assert(texts(logs@) =~= Seq::<Seq<char>>::empty());
            AdminResponsePayload { success: true, message, logs }
        },
        AdminAction::FactoryReset => {
            let logs: Vec<String> = Vec::new();
            assert(texts(logs@) =~= Seq::<Seq<char>>::empty());
            AdminResponsePayload {
                success: true,
                message: String::from_str("Reestablecimiento de fábrica completado (llaves revocadas)"),
                logs,
            }
        },
        AdminAction::UpdateRuntime => {
            let version = or_default(&request.update_version, "v1.1.0-stable");
            let mut message = String::from_str("Actualización de runtime a la versión ");
            message.append(version.as_str());
            message.append(" completada con éxito");
            let logs: Vec<String> = Vec::new();
            assert(texts(logs@) =~= Seq::<Seq<char>>::empty());
            AdminResponsePayload { success: true, message, logs }
        },
    }
}

/// Where the vault serves a service request.
#[derive(Debug, Clone, Copy, PartialEq, Eq, Structural)]
pub enum ServiceRoute {
    /// Remote administration, answered by [`respond_to_admin_request`].
    Admin,
    /// Every other service: not available inside the vault.
    Unavailable,
}

/// The route of a service request: administration is served, every other
/// service is unavailable inside the vault.
pub fn route_service(service: ServiceId) -> (r: ServiceRoute)
    ensures
        r == (if service == ServiceId::Admin { ServiceRoute::Admin } else { ServiceRoute::Unavailable }),
{
    match service {
        ServiceId::Admin => ServiceRoute::Admin,
        _ => ServiceRoute::Unavailable,
    }
}

/// Whether `frame` is the service response to request `req_id`; other
/// frames (interleaved heartbeats, other requests) are skipped while
/// waiting for it.
pub fn is_awaited_reply(frame: &Frame, req_id: u64) -> (r: bool)
    ensures
        r == (frame.msg_type == MsgType::ServiceResponse && frame.req_id == req_id),
{
    frame.msg_type == MsgType::ServiceResponse && frame.req_id == req_id
}

/// Why a location request failed on the frontend's side.
#[derive(Debug, Clone)]
pub enum ServiceFailure {
    PermissionDenied,
    Unavailable,
    /// The frontend reported an error; carries its message.
    Remote(String),
}

pub open spec fn service_failure_text(f: ServiceFailure) -> Seq<char> {
    match f {
        ServiceFailure::PermissionDenied => "permiso de ubicación denegado por el usuario"@,
        ServiceFailure::Unavailable => "servicio de ubicación no disponible en el frontend"@,
        ServiceFailure::Remote(m) => "error del frontend: "@ + m@,
    }
}

impl ServiceFailure {
    /// The human-readable text of the failure.
    pub fn message(&self) -> (r: String)
        ensures
            r@ == service_failure_text(*self),
    {
        match self {
            ServiceFailure::PermissionDenied => String::from_str(
                "permiso de ubicación denegado por el usuario",
            ),
            ServiceFailure::Unavailable => String::from_str(
                "servicio de ubicación no disponible en el frontend",
            ),
            ServiceFailure::Remote(m) => {
                let mut s = String::from_str("error del frontend: ");
                s.append(m.as_str());
                s
            },
        }
    }
}

/// The response body a service result carries, or the failure it reports.
pub fn service_result_body(result: ServiceResult) -> (r: Result<Vec<u8>, ServiceFailure>)
    ensures
        match result {
            ServiceResult::Success(body) => r matches Ok(b) && b@ == body@,
            ServiceResult::PermissionDenied => r matches Err(ServiceFailure::PermissionDenied),
            ServiceResult::Unavailable => r matches Err(ServiceFailure::Unavailable),
            ServiceResult::Error(m) => r matches Err(ServiceFailure::Remote(e)) && e@ == m@,
        },
{
    match result {
        ServiceResult::Success(body) => Ok(body),
        ServiceResult::PermissionDenied => Err(ServiceFailure::PermissionDenied),
        ServiceResult::Unavailable => Err(ServiceFailure::Unavailable),
        ServiceResult::Error(m) => Err(ServiceFailure::Remote(m)),
    }
}

} // verus!
