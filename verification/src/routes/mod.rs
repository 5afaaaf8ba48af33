pub mod replies;
