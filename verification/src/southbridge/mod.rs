pub mod intel;
