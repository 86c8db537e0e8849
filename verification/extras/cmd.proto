// The wire form of the command messages, as app/pb.rs declares it for prost.
syntax = "proto3";

package cmd;

message CmdRequest {
  oneof req_data {
    Get get = 1;
    Set set = 2;
    Publish publish = 3;
    Subscribe subscribe = 4;
    Unsubscribe unsubscribe = 5;
  }
}

message CmdResponse {
  uint32 status = 1;
  string message = 2;
  bytes value = 3;
}

message Get { string key = 1; }

message Set {
  string key = 1;
  bytes value = 2;
}

message Publish {
  string topic = 1;
  bytes value = 2;
}

message Subscribe { string topic = 1; }

message Unsubscribe {
  string topic = 1;
  uint32 id = 2;
}
