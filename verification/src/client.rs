//! The facade over one endpoint: which request fetches which resource.
//!
//! A [`Redfish`] sends nothing itself. Each accessor describes the one GET
//! request that fetches its resource; whoever runs the exchange sends it,
//! hands the reply to [`Reply::check`](crate::response::Reply::check) and,
//! if that gives the body back, what the decoder made of it to
//! [`finish`](crate::response::finish).

use vstd::prelude::*;
use crate::config::Config;
use crate::decimal::append_decimal;
use crate::endpoint;
use crate::request::{json_headers, request_for, Credentials, Header, Request};
use crate::uri::build_uri;

verus! {

/// A specific host's endpoint to interface with.
#[derive(Debug)]
pub struct Redfish {
    /// The information to access the endpoint.
    pub config: Config,
}

impl Redfish {
    /// A facade over the endpoint that `config` describes.
    pub fn new(config: Config) -> (redfish: Redfish)
        ensures
            redfish.config == config,
    {
        Redfish { config }
    }

    /// The request that fetches the resource at path fragment `api`: a GET of
    /// the URI composed from the configuration and `api`, which asks for JSON
    /// and carries the configured user's credentials, if a user is set.
    ///
    /// The named accessors cover the known resources; this is for the others.
    pub fn get(&self, api: &str) -> (request: Request)
        ensures
            request@ == request_for(self.config@, api@),
    {
        let uri = build_uri(&self.config.host, self.config.port, self.config.api_version, api);
        let mut headers: Vec<Header> = Vec::new();
        headers.push(Header { name: "Accept".to_owned(), value: "application/json".to_owned() });
        headers.push(
            Header { name: "Content-Type".to_owned(), value: "application/json".to_owned() },
        );
        let auth = Credentials::select(&self.config.user, &self.config.password);
        let request = Request { uri, headers, auth };
        assert(request@.headers =~= json_headers());
        request
    }

    /// The request for one array controller, to be decoded as an array
    /// controller.
    pub fn get_array_controller(&self, controller_id: u64) -> (request: Request)
        ensures
            request@ == request_for(self.config@, endpoint::array_controller(controller_id)),
    {
        let mut path = "Systems/1/SmartStorage/ArrayControllers/".to_owned();
        append_decimal(&mut path, controller_id);
        path.append("/");
        self.get(path.as_str())
    }

    /// The request for all array controllers of the host.
    pub fn get_array_controllers(&self) -> (request: Request)
        ensures
            request@ == request_for(self.config@, endpoint::array_controllers()),
    {
        self.get("Systems/1/SmartStorage/ArrayControllers/")
    }

    /// The request for the manager status.
    pub fn get_manager_status(&self) -> (request: Request)
        ensures
            request@ == request_for(self.config@, endpoint::managers()),
    {
        self.get("Managers/")
    }

    /// The request for the power status.
    pub fn get_power_status(&self) -> (request: Request)
        ensures
            request@ == request_for(self.config@, endpoint::power()),
    {
        self.get("Chassis/1/Power/")
    }

    /// The request for the thermal status.
    pub fn get_thermal_status(&self) -> (request: Request)
        ensures
            request@ == request_for(self.config@, endpoint::thermal()),
    {
        self.get("Chassis/1/Thermal/")
    }

    /// The request for the smart array status of one array controller. It is
    /// the request for the array controller itself: the same resource, to be
    /// decoded into its storage-specific view.
    pub fn get_smart_array_status(&self, controller_id: u64) -> (request: Request)
        ensures
            request@ == request_for(self.config@, endpoint::array_controller(controller_id)),
    {
        self.get_array_controller(controller_id)
    }

    /// The request for the logical drives configured on one array
    /// controller.
    pub fn get_logical_drives(&self, controller_id: u64) -> (request: Request)
        ensures
            request@ == request_for(self.config@, endpoint::logical_drives(controller_id)),
    {
        let mut path = "Systems/1/SmartStorage/ArrayControllers/".to_owned();
        append_decimal(&mut path, controller_id);
        path.append("/LogicalDrives/");
        self.get(path.as_str())
    }

    /// The request for the physical drive `drive_id` of the array controller
    /// `controller_id`.
    pub fn get_physical_drive(&self, drive_id: u64, controller_id: u64) -> (request: Request)
        ensures
            request@ == request_for(
                self.config@,
                endpoint::physical_drive(controller_id, drive_id),
            ),
    {
        let mut path = "Systems/1/SmartStorage/ArrayControllers/".to_owned();
        append_decimal(&mut path, controller_id);
        path.append("/DiskDrives/");
        append_decimal(&mut path, drive_id);
        path.append("/");
        self.get(path.as_str())
    }

    /// The request for all physical drives of one array controller.
    pub fn get_physical_drives(&self, controller_id: u64) -> (request: Request)
        ensures
            request@ == request_for(self.config@, endpoint::physical_drives(controller_id)),
    {
        let mut path = "Systems/1/SmartStorage/ArrayControllers/".to_owned();
        append_decimal(&mut path, controller_id);
        path.append("/DiskDrives/");
        self.get(path.as_str())
    }

    /// The request for all storage enclosures of one array controller.
    pub fn get_storage_enclosures(&self, controller_id: u64) -> (request: Request)
        ensures
            request@ == request_for(self.config@, endpoint::storage_enclosures(controller_id)),
    {
        let mut path = "Systems/1/SmartStorage/ArrayControllers/".to_owned();
        append_decimal(&mut path, controller_id);
        path.append("/StorageEnclosures/");
        self.get(path.as_str())
    }

    /// The request for the storage enclosure `enclosure_id` of the array
    /// controller `controller_id`.
    pub fn get_storage_enclosure(&self, controller_id: u64, enclosure_id: u64) -> (request: Request)
        ensures
            request@ == request_for(
                self.config@,
                endpoint::storage_enclosure(controller_id, enclosure_id),
            ),
    {
        let mut path = "Systems/1/SmartStorage/ArrayControllers/".to_owned();
        append_decimal(&mut path, controller_id);
        path.append("/StorageEnclosures/");
        append_decimal(&mut path, enclosure_id);
        path.append("/");
        self.get(path.as_str())
    }
}

} // verus!
